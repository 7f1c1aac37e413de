//! Speed tests: which program measures, how a run goes, and what its output
//! means.
//!
//! Measured values are doubles. Here they stay as they were read, as the bits
//! of a double and the scale that turns it into the reported unit.

use vstd::prelude::*;

use crate::event;
use crate::json::{self, Fields, JsonNode, NodeView};
use crate::text;
use crate::time::{self, Duration, Instant};

verus! {

pub const RESULT_SCHEMA_VERSION: u8 = 1;

/// What measures. Apple's program is part of the system.
#[derive(Clone, Copy, Debug, PartialEq, Eq, Structural)]
pub enum SpeedtestProvider {
    Apple,
    Ookla,
    Netflix,
    Custom,
}

impl Default for SpeedtestProvider {
    fn default() -> (r: Self)
        ensures
            r == SpeedtestProvider::Apple,
    {
        SpeedtestProvider::Apple
    }
}

pub open spec fn provider_name(provider: SpeedtestProvider) -> Seq<char> {
    match provider {
        SpeedtestProvider::Apple => "apple"@,
        SpeedtestProvider::Ookla => "ookla"@,
        SpeedtestProvider::Netflix => "netflix"@,
        SpeedtestProvider::Custom => "custom"@,
    }
}

/// The seconds that a provider gets where nothing is configured.
pub open spec fn default_secs(provider: SpeedtestProvider) -> u64 {
    match provider {
        SpeedtestProvider::Apple => 30,
        _ => 300,
    }
}

impl SpeedtestProvider {
    pub fn name(self) -> (r: &'static str)
        ensures
            r@ == provider_name(self),
    {
        match self {
            SpeedtestProvider::Apple => "apple",
            SpeedtestProvider::Ookla => "ookla",
            SpeedtestProvider::Netflix => "netflix",
            SpeedtestProvider::Custom => "custom",
        }
    }

    /// How long a run may take where nothing is configured. The providers that
    /// measure longer get longer.
    pub fn default_timeout(self) -> (r: Duration)
        ensures
            r.nanos == default_secs(self) * time::NANOS_PER_SEC,
    {
        match self {
            SpeedtestProvider::Apple => Duration::from_secs(30),
            _ => Duration::from_secs(300),
        }
    }
}

#[derive(Debug)]
pub struct SpeedtestOptions {
    pub provider: SpeedtestProvider,
    pub timeout: Duration,
    pub server_id: Option<u64>,
    /// The path of the custom program.
    pub custom_command: Option<String>,
    pub custom_args: Vec<String>,
}

impl Default for SpeedtestOptions {
    fn default() -> (r: Self)
        ensures
            r.provider == SpeedtestProvider::Apple,
            r.timeout.nanos == default_secs(SpeedtestProvider::Apple) * time::NANOS_PER_SEC,
            r.server_id is None,
            r.custom_command is None,
            r.custom_args@ == Seq::<String>::empty(),
    {
        SpeedtestOptions {
            provider: SpeedtestProvider::Apple,
            timeout: SpeedtestProvider::Apple.default_timeout(),
            server_id: None,
            custom_command: None,
            custom_args: Vec::new(),
        }
    }
}

/// How a value that was read becomes the value that is reported.
#[derive(Clone, Copy, Debug, PartialEq, Eq, Structural)]
pub enum Scale {
    /// As it is.
    Same,
    /// Bits per second, reported in millions.
    BitsPerSecond,
    /// Bytes per second, reported in millions of bits.
    BytesPerSecond,
}

/// A measured value: the bits of the double that was read, and its scale.
#[derive(Clone, Copy, Debug, PartialEq, Eq, Structural)]
pub struct Metric {
    pub bits: u64,
    pub scale: Scale,
}

/// The outcome of a run, whatever the provider.
#[derive(Debug)]
pub struct SpeedtestResult {
    pub schema_version: u8,
    pub provider: SpeedtestProvider,
    pub download_mbps: Option<Metric>,
    pub upload_mbps: Option<Metric>,
    pub ping_ms: Option<Metric>,
    pub loaded_latency_ms: Option<Metric>,
    pub jitter_ms: Option<Metric>,
    pub packet_loss_percent: Option<Metric>,
    pub responsiveness_rpm: Option<Metric>,
    pub bytes_downloaded: Option<u64>,
    pub bytes_uploaded: Option<u64>,
    pub interface: Option<String>,
    pub server: Option<SpeedtestServer>,
    pub result_url: Option<String>,
    pub timestamp: Option<String>,
    pub duration_ms: u64,
}

#[derive(Debug)]
pub struct SpeedtestServer {
    pub id: Option<u64>,
    pub name: Option<String>,
    pub location: Option<String>,
    pub host: Option<String>,
}

#[verifier::ext_equal]
pub struct ServerView {
    pub id: Option<u64>,
    pub name: Option<Seq<char>>,
    pub location: Option<Seq<char>>,
    pub host: Option<Seq<char>>,
}

#[verifier::ext_equal]
pub struct ResultView {
    pub schema_version: u8,
    pub provider: SpeedtestProvider,
    pub download_mbps: Option<Metric>,
    pub upload_mbps: Option<Metric>,
    pub ping_ms: Option<Metric>,
    pub loaded_latency_ms: Option<Metric>,
    pub jitter_ms: Option<Metric>,
    pub packet_loss_percent: Option<Metric>,
    pub responsiveness_rpm: Option<Metric>,
    pub bytes_downloaded: Option<u64>,
    pub bytes_uploaded: Option<u64>,
    pub interface: Option<Seq<char>>,
    pub server: Option<ServerView>,
    pub result_url: Option<Seq<char>>,
    pub timestamp: Option<Seq<char>>,
    pub duration_ms: u64,
}

impl View for SpeedtestServer {
    type V = ServerView;

    open spec fn view(&self) -> ServerView {
        ServerView {
            id: self.id,
            name: text::opt_text(self.name),
            location: text::opt_text(self.location),
            host: text::opt_text(self.host),
        }
    }
}

impl View for SpeedtestResult {
    type V = ResultView;

    open spec fn view(&self) -> ResultView {
        ResultView {
            schema_version: self.schema_version,
            provider: self.provider,
            download_mbps: self.download_mbps,
            upload_mbps: self.upload_mbps,
            ping_ms: self.ping_ms,
            loaded_latency_ms: self.loaded_latency_ms,
            jitter_ms: self.jitter_ms,
            packet_loss_percent: self.packet_loss_percent,
            responsiveness_rpm: self.responsiveness_rpm,
            bytes_downloaded: self.bytes_downloaded,
            bytes_uploaded: self.bytes_uploaded,
            interface: text::opt_text(self.interface),
            server: match self.server {
                Some(s) => Some(s@),
                None => None,
            },
            result_url: text::opt_text(self.result_url),
            timestamp: text::opt_text(self.timestamp),
            duration_ms: self.duration_ms,
        }
    }
}

impl Clone for SpeedtestServer {
    fn clone(&self) -> (r: Self)
        ensures
            r == *self,
    {
        SpeedtestServer {
            id: self.id,
            name: self.name.clone(),
            location: self.location.clone(),
            host: self.host.clone(),
        }
    }
}

impl Clone for SpeedtestResult {
    fn clone(&self) -> (r: Self)
        ensures
            r == *self,
    {
        SpeedtestResult {
            schema_version: self.schema_version,
            provider: self.provider,
            download_mbps: self.download_mbps,
            upload_mbps: self.upload_mbps,
            ping_ms: self.ping_ms,
            loaded_latency_ms: self.loaded_latency_ms,
            jitter_ms: self.jitter_ms,
            packet_loss_percent: self.packet_loss_percent,
            responsiveness_rpm: self.responsiveness_rpm,
            bytes_downloaded: self.bytes_downloaded,
            bytes_uploaded: self.bytes_uploaded,
            interface: self.interface.clone(),
            server: match &self.server {
                Some(s) => Some(s.clone()),
                None => None,
            },
            result_url: self.result_url.clone(),
            timestamp: self.timestamp.clone(),
            duration_ms: self.duration_ms,
        }
    }
}

// ---------------------------------------------------------------------------
// What the output of a provider means.
// ---------------------------------------------------------------------------

pub open spec fn empty_view(provider: SpeedtestProvider) -> ResultView {
    ResultView {
        schema_version: RESULT_SCHEMA_VERSION,
        provider,
        download_mbps: None,
        upload_mbps: None,
        ping_ms: None,
        loaded_latency_ms: None,
        jitter_ms: None,
        packet_loss_percent: None,
        responsiveness_rpm: None,
        bytes_downloaded: None,
        bytes_uploaded: None,
        interface: None,
        server: None,
        result_url: None,
        timestamp: None,
        duration_ms: 0,
    }
}

/// A result with nothing in it yet.
pub fn empty_result(provider: SpeedtestProvider) -> (r: SpeedtestResult)
    ensures
        r@ == empty_view(provider),
{
    SpeedtestResult {
        schema_version: RESULT_SCHEMA_VERSION,
        provider,
        download_mbps: None,
        upload_mbps: None,
        ping_ms: None,
        loaded_latency_ms: None,
        jitter_ms: None,
        packet_loss_percent: None,
        responsiveness_rpm: None,
        bytes_downloaded: None,
        bytes_uploaded: None,
        interface: None,
        server: None,
        result_url: None,
        timestamp: None,
        duration_ms: 0,
    }
}

/// The result has at least one of download, upload and ping.
pub open spec fn has_primary(r: ResultView) -> bool {
    r.download_mbps is Some || r.upload_mbps is Some || r.ping_ms is Some
}

/// The result, if it has a primary metric, and otherwise what is wrong.
pub open spec fn required(r: ResultView) -> Result<ResultView, Seq<char>> {
    if has_primary(r) {
        Ok(r)
    } else {
        Err(provider_name(r.provider) + " output must contain download, upload, or ping metrics"@)
    }
}

/// Outcomes are equal up to views.
pub open spec fn outcome_view(r: Result<SpeedtestResult, String>) -> Result<
    ResultView,
    Seq<char>,
> {
    match r {
        Ok(result) => Ok(result@),
        Err(e) => Err(e@),
    }
}

pub fn require_primary_metric(result: SpeedtestResult) -> (r: Result<SpeedtestResult, String>)
    ensures
        outcome_view(r) == required(result@),
        r is Ok ==> r->Ok_0 == result,
{
    if result.download_mbps.is_none() && result.upload_mbps.is_none() && result.ping_ms.is_none() {
        Err(
            text::cat2(
                result.provider.name(),
                " output must contain download, upload, or ping metrics",
            ),
        )
    } else {
        Ok(result)
    }
}

pub open spec fn metric(node: Option<NodeView>, scale: Scale) -> Option<Metric> {
    match json::number_in(node) {
        Some(bits) => Some(Metric { bits, scale }),
        None => None,
    }
}

fn metric_at(fields: &Fields, pointer: &str, scale: Scale) -> (r: Option<Metric>)
    ensures
        r == metric(fields.at(pointer@), scale),
{
    match fields.number(pointer) {
        Some(bits) => Some(Metric { bits, scale }),
        None => None,
    }
}

/// What the fields of Apple's output mean, given what stands at each pointer.
pub open spec fn apple_view(at: spec_fn(Seq<char>) -> Option<NodeView>) -> ResultView {
    ResultView {
        download_mbps: metric(at("/dl_throughput"@), Scale::BitsPerSecond),
        upload_mbps: metric(at("/ul_throughput"@), Scale::BitsPerSecond),
        ping_ms: metric(at("/base_rtt"@), Scale::Same),
        responsiveness_rpm: metric(at("/responsiveness"@), Scale::Same),
        bytes_downloaded: json::integer_in(at("/dl_bytes_transferred"@)),
        bytes_uploaded: json::integer_in(at("/ul_bytes_transferred"@)),
        interface: json::string_in(at("/interface_name"@)),
        timestamp: json::string_in(at("/end_date"@)),
        server: match json::string_in(at("/test_endpoint"@)) {
            Some(host) => Some(
                ServerView { id: None, name: None, location: None, host: Some(host) },
            ),
            None => None,
        },
        ..empty_view(SpeedtestProvider::Apple)
    }
}

/// What the fields of Ookla's output mean.
pub open spec fn ookla_view(at: spec_fn(Seq<char>) -> Option<NodeView>) -> ResultView {
    ResultView {
        download_mbps: metric(at("/download/bandwidth"@), Scale::BytesPerSecond),
        upload_mbps: metric(at("/upload/bandwidth"@), Scale::BytesPerSecond),
        ping_ms: metric(at("/ping/latency"@), Scale::Same),
        jitter_ms: metric(at("/ping/jitter"@), Scale::Same),
        packet_loss_percent: metric(at("/packetLoss"@), Scale::Same),
        bytes_downloaded: json::integer_in(at("/download/bytes"@)),
        bytes_uploaded: json::integer_in(at("/upload/bytes"@)),
        interface: json::string_in(at("/interface/name"@)),
        result_url: json::string_in(at("/result/url"@)),
        timestamp: json::string_in(at("/timestamp"@)),
        server: Some(
            ServerView {
                id: json::integer_in(at("/server/id"@)),
                name: json::string_in(at("/server/name"@)),
                location: json::string_in(at("/server/location"@)),
                host: json::string_in(at("/server/host"@)),
            },
        ),
        ..empty_view(SpeedtestProvider::Ookla)
    }
}

/// What the fields of Netflix's output mean.
pub open spec fn netflix_view(at: spec_fn(Seq<char>) -> Option<NodeView>) -> ResultView {
    ResultView {
        download_mbps: metric(at("/downloadSpeed"@), Scale::Same),
        upload_mbps: metric(at("/uploadSpeed"@), Scale::Same),
        ping_ms: metric(at("/latency"@), Scale::Same),
        loaded_latency_ms: metric(at("/bufferBloat"@), Scale::Same),
        server: match json::string_in(at("/userLocation"@)) {
            Some(location) => Some(
                ServerView {
                    id: None,
                    name: Some("fast.com"@),
                    location: Some(location),
                    host: Some("fast.com"@),
                },
            ),
            None => None,
        },
        ..empty_view(SpeedtestProvider::Netflix)
    }
}

/// What the fields of a custom program's output mean, but for the server.
pub open spec fn custom_view(at: spec_fn(Seq<char>) -> Option<NodeView>) -> ResultView {
    ResultView {
        download_mbps: metric(at("/download_mbps"@), Scale::Same),
        upload_mbps: metric(at("/upload_mbps"@), Scale::Same),
        ping_ms: metric(at("/ping_ms"@), Scale::Same),
        loaded_latency_ms: metric(at("/loaded_latency_ms"@), Scale::Same),
        jitter_ms: metric(at("/jitter_ms"@), Scale::Same),
        packet_loss_percent: metric(at("/packet_loss_percent"@), Scale::Same),
        bytes_downloaded: json::integer_in(at("/bytes_downloaded"@)),
        bytes_uploaded: json::integer_in(at("/bytes_uploaded"@)),
        interface: json::string_in(at("/interface"@)),
        result_url: json::string_in(at("/result_url"@)),
        timestamp: json::string_in(at("/timestamp"@)),
        ..empty_view(SpeedtestProvider::Custom)
    }
}

/// What an unexpected value is called.
pub open spec fn kind_word(node: NodeView) -> Seq<char> {
    match node {
        NodeView::Null => "null"@,
        NodeView::Bool(b) => if b {
            "boolean `true`"@
        } else {
            "boolean `false`"@
        },
        NodeView::Number { whole, shown, .. } => if whole {
            "integer `"@ + shown + "`"@
        } else {
            "floating point `"@ + shown + "`"@
        },
        NodeView::Text(s) => "string "@ + text::debug_text(s),
        NodeView::Array(_) => "sequence"@,
        NodeView::Object => "map"@,
    }
}

fn word_of(node: &JsonNode) -> (r: String)
    ensures
        r@ == kind_word(node@),
{
    match node {
        JsonNode::Null => "null".to_owned(),
        JsonNode::Bool(b) => {
            if *b {
                "boolean `true`".to_owned()
            } else {
                "boolean `false`".to_owned()
            }
        },
        JsonNode::Number { whole, shown, .. } => {
            if *whole {
                text::cat3("integer `", shown.as_str(), "`")
            } else {
                text::cat3("floating point `", shown.as_str(), "`")
            }
        },
        JsonNode::Text(s) => text::cat2("string ", text::quoted(s.as_str()).as_str()),
        JsonNode::Array(_) => "sequence".to_owned(),
        JsonNode::Object => "map".to_owned(),
    }
}

pub open spec fn wrong_kind(node: NodeView, expected: Seq<char>) -> Seq<char> {
    "invalid type: "@ + kind_word(node) + ", expected "@ + expected
}

fn kind_error(node: &JsonNode, expected: &str) -> (r: String)
    ensures
        r@ == wrong_kind(node@, expected@),
{
    text::cat4("invalid type: ", word_of(node).as_str(), ", expected ", expected)
}

/// A field that may be absent or null, and is otherwise an unsigned integer. A
/// negative integer is of the right kind, but has no right value.
pub open spec fn optional_integer(node: Option<NodeView>) -> Result<Option<u64>, Seq<char>> {
    match node {
        None => Ok(None),
        Some(NodeView::Null) => Ok(None),
        Some(NodeView::Number { integer: Some(n), .. }) => Ok(Some(n)),
        Some(NodeView::Number { integer: None, whole: true, shown, .. }) => Err(
            "invalid value: integer `"@ + shown + "`, expected u64"@,
        ),
        Some(other) => Err(wrong_kind(other, "u64"@)),
    }
}

/// A field that may be absent or null, and is otherwise a string.
pub open spec fn optional_string(node: Option<NodeView>) -> Result<Option<Seq<char>>, Seq<char>> {
    match node {
        None => Ok(None),
        Some(NodeView::Null) => Ok(None),
        Some(NodeView::Text(s)) => Ok(Some(s)),
        Some(other) => Err(wrong_kind(other, "a string"@)),
    }
}

fn integer_field(node: Option<JsonNode>) -> (r: Result<Option<u64>, String>)
    ensures
        match r {
            Ok(v) => optional_integer(json::opt_node(node)) == Ok::<_, Seq<char>>(v),
            Err(e) => optional_integer(json::opt_node(node)) == Err::<Option<u64>, _>(e@),
        },
{
    match node {
        None => Ok(None),
        Some(JsonNode::Null) => Ok(None),
        Some(JsonNode::Number { integer: Some(n), .. }) => Ok(Some(n)),
        Some(JsonNode::Number { integer: None, whole: true, shown, .. }) => Err(
            text::cat3("invalid value: integer `", shown.as_str(), "`, expected u64"),
        ),
        Some(other) => Err(kind_error(&other, "u64")),
    }
}

fn string_field(node: Option<JsonNode>) -> (r: Result<Option<String>, String>)
    ensures
        match r {
            Ok(v) => optional_string(json::opt_node(node)) == Ok::<_, Seq<char>>(
                text::opt_text(v),
            ),
            Err(e) => optional_string(json::opt_node(node)) == Err::<Option<Seq<char>>, _>(e@),
        },
{
    match node {
        None => Ok(None),
        Some(JsonNode::Null) => Ok(None),
        Some(JsonNode::Text(s)) => Ok(Some(s)),
        Some(other) => Err(kind_error(&other, "a string")),
    }
}

pub open spec fn wrong_length(n: nat) -> Seq<char> {
    if n < 4 {
        "invalid length "@ + text::decimal(n)
            + ", expected struct SpeedtestServer with 4 elements"@
    } else {
        "invalid length "@ + text::decimal(n) + ", expected fewer elements in array"@
    }
}

/// The first error of a list of fields, in the order in which they are read.
pub open spec fn first_error(
    a: Option<Seq<char>>,
    b: Option<Seq<char>>,
    c: Option<Seq<char>>,
    d: Option<Seq<char>>,
) -> Option<Seq<char>> {
    if a is Some {
        a
    } else if b is Some {
        b
    } else if c is Some {
        c
    } else {
        d
    }
}

pub open spec fn error_of<T>(r: Result<T, Seq<char>>) -> Option<Seq<char>> {
    match r {
        Ok(_) => None,
        Err(e) => Some(e),
    }
}

/// The server of a custom program's output. It may be absent. A map is read
/// by name, and an array of four by position; the first field that is of the
/// wrong kind is an error, and so is anything else.
pub open spec fn server_view(at: spec_fn(Seq<char>) -> Option<NodeView>) -> Result<
    Option<ServerView>,
    Seq<char>,
> {
    match at("/server"@) {
        None => Ok(None),
        Some(NodeView::Object) => {
            let host = optional_string(at("/server/host"@));
            let id = optional_integer(at("/server/id"@));
            let location = optional_string(at("/server/location"@));
            let name = optional_string(at("/server/name"@));
            match first_error(error_of(host), error_of(id), error_of(location), error_of(name)) {
                Some(e) => Err(e),
                None => Ok(
                    Some(
                        ServerView {
                            id: id->Ok_0,
                            name: name->Ok_0,
                            location: location->Ok_0,
                            host: host->Ok_0,
                        },
                    ),
                ),
            }
        },
        Some(NodeView::Array(n)) => {
            let id = optional_integer(at("/server/0"@));
            let name = optional_string(at("/server/1"@));
            let location = optional_string(at("/server/2"@));
            let host = optional_string(at("/server/3"@));
            match first_error(error_of(id), error_of(name), error_of(location), error_of(host)) {
                Some(e) => Err(e),
                None => if n != 4 {
                    Err(wrong_length(n))
                } else {
                    Ok(
                        Some(
                            ServerView {
                                id: id->Ok_0,
                                name: name->Ok_0,
                                location: location->Ok_0,
                                host: host->Ok_0,
                            },
                        ),
                    )
                },
            }
        },
        Some(other) => Err(wrong_kind(other, "struct SpeedtestServer"@)),
    }
}

/// What stands at the pointers of a document.
pub open spec fn document(nodes: Map<Seq<char>, NodeView>) -> spec_fn(Seq<char>) -> Option<
    NodeView,
> {
    |pointer: Seq<char>| json::found(nodes, pointer)
}

/// What a set of fields says of the pointers.
pub open spec fn stated(fields: Fields) -> spec_fn(Seq<char>) -> Option<NodeView> {
    |pointer: Seq<char>| fields.at(pointer)
}

/// The result that the fields of Apple's output give.
pub fn apple_result(fields: &Fields) -> (r: Result<SpeedtestResult, String>)
    ensures
        outcome_view(r) == required(apple_view(stated(*fields))),
{
    let mut result = empty_result(SpeedtestProvider::Apple);
    result.download_mbps = metric_at(fields, "/dl_throughput", Scale::BitsPerSecond);
    result.upload_mbps = metric_at(fields, "/ul_throughput", Scale::BitsPerSecond);
    result.ping_ms = metric_at(fields, "/base_rtt", Scale::Same);
    result.responsiveness_rpm = metric_at(fields, "/responsiveness", Scale::Same);
    result.bytes_downloaded = fields.integer("/dl_bytes_transferred");
    result.bytes_uploaded = fields.integer("/ul_bytes_transferred");
    result.interface = fields.string("/interface_name");
    result.timestamp = fields.string("/end_date");
    result.server = match fields.string("/test_endpoint") {
        Some(host) => Some(
            SpeedtestServer { id: None, name: None, location: None, host: Some(host) },
        ),
        None => None,
    };
    assert(result@ == apple_view(stated(*fields)));
    require_primary_metric(result)
}

/// The result that the fields of Ookla's output give.
pub fn ookla_result(fields: &Fields) -> (r: Result<SpeedtestResult, String>)
    ensures
        outcome_view(r) == required(ookla_view(stated(*fields))),
{
    let mut result = empty_result(SpeedtestProvider::Ookla);
    result.download_mbps = metric_at(fields, "/download/bandwidth", Scale::BytesPerSecond);
    result.upload_mbps = metric_at(fields, "/upload/bandwidth", Scale::BytesPerSecond);
    result.ping_ms = metric_at(fields, "/ping/latency", Scale::Same);
    result.jitter_ms = metric_at(fields, "/ping/jitter", Scale::Same);
    result.packet_loss_percent = metric_at(fields, "/packetLoss", Scale::Same);
    result.bytes_downloaded = fields.integer("/download/bytes");
    result.bytes_uploaded = fields.integer("/upload/bytes");
    result.interface = fields.string("/interface/name");
    result.result_url = fields.string("/result/url");
    result.timestamp = fields.string("/timestamp");
    result.server = Some(
        SpeedtestServer {
            id: fields.integer("/server/id"),
            name: fields.string("/server/name"),
            location: fields.string("/server/location"),
            host: fields.string("/server/host"),
        },
    );
    assert(result@ == ookla_view(stated(*fields)));
    require_primary_metric(result)
}

/// The result that the fields of Netflix's output give.
pub fn netflix_result(fields: &Fields) -> (r: Result<SpeedtestResult, String>)
    ensures
        outcome_view(r) == required(netflix_view(stated(*fields))),
{
    let mut result = empty_result(SpeedtestProvider::Netflix);
    result.download_mbps = metric_at(fields, "/downloadSpeed", Scale::Same);
    result.upload_mbps = metric_at(fields, "/uploadSpeed", Scale::Same);
    result.ping_ms = metric_at(fields, "/latency", Scale::Same);
    result.loaded_latency_ms = metric_at(fields, "/bufferBloat", Scale::Same);
    result.server = match fields.string("/userLocation") {
        Some(location) => Some(
            SpeedtestServer {
                id: None,
                name: Some("fast.com".to_owned()),
                location: Some(location),
                host: Some("fast.com".to_owned()),
            },
        ),
        None => None,
    };
    assert(result@ == netflix_view(stated(*fields)));
    require_primary_metric(result)
}


/// The server that the fields of a custom program's output give.
pub fn server_result(fields: &Fields) -> (r: Result<Option<SpeedtestServer>, String>)
    ensures
        match r {
            Ok(s) => server_view(stated(*fields)) == Ok::<_, Seq<char>>(
                match s {
                    Some(s) => Some(s@),
                    None => None,
                },
            ),
            Err(e) => server_view(stated(*fields)) == Err::<Option<ServerView>, _>(e@),
        },
{
    match fields.get("/server") {
        None => Ok(None),
        Some(JsonNode::Object) => {
            let host = match string_field(fields.get("/server/host")) {
                Ok(v) => v,
                Err(e) => {
                    return Err(e);
                },
            };
            let id = match integer_field(fields.get("/server/id")) {
                Ok(v) => v,
                Err(e) => {
                    return Err(e);
                },
            };
            let location = match string_field(fields.get("/server/location")) {
                Ok(v) => v,
                Err(e) => {
                    return Err(e);
                },
            };
            let name = match string_field(fields.get("/server/name")) {
                Ok(v) => v,
                Err(e) => {
                    return Err(e);
                },
            };
            Ok(Some(SpeedtestServer { id, name, location, host }))
        },
        Some(JsonNode::Array(n)) => {
            let id = match integer_field(fields.get("/server/0")) {
                Ok(v) => v,
                Err(e) => {
                    return Err(e);
                },
            };
            let name = match string_field(fields.get("/server/1")) {
                Ok(v) => v,
                Err(e) => {
                    return Err(e);
                },
            };
            let location = match string_field(fields.get("/server/2")) {
                Ok(v) => v,
                Err(e) => {
                    return Err(e);
                },
            };
            let host = match string_field(fields.get("/server/3")) {
                Ok(v) => v,
                Err(e) => {
                    return Err(e);
                },
            };
            if n != 4 {
                let length = text::decimal_text(n as u128);
                return Err(
                    if n < 4 {
                        text::cat3(
                            "invalid length ",
                            length.as_str(),
                            ", expected struct SpeedtestServer with 4 elements",
                        )
                    } else {
                        text::cat3(
                            "invalid length ",
                            length.as_str(),
                            ", expected fewer elements in array",
                        )
                    },
                );
            }
            Ok(Some(SpeedtestServer { id, name, location, host }))
        },
        Some(other) => Err(kind_error(&other, "struct SpeedtestServer")),
    }
}

/// The result of a custom program's output, with its server.
pub open spec fn custom_outcome(at: spec_fn(Seq<char>) -> Option<NodeView>) -> Result<
    ResultView,
    Seq<char>,
> {
    match server_view(at) {
        Ok(server) => required(ResultView { server, ..custom_view(at) }),
        Err(e) => Err(e),
    }
}

/// The result that the fields of a custom program's output give.
pub fn custom_result(fields: &Fields) -> (r: Result<SpeedtestResult, String>)
    ensures
        outcome_view(r) == custom_outcome(stated(*fields)),
{
    let mut result = empty_result(SpeedtestProvider::Custom);
    result.download_mbps = metric_at(fields, "/download_mbps", Scale::Same);
    result.upload_mbps = metric_at(fields, "/upload_mbps", Scale::Same);
    result.ping_ms = metric_at(fields, "/ping_ms", Scale::Same);
    result.loaded_latency_ms = metric_at(fields, "/loaded_latency_ms", Scale::Same);
    result.jitter_ms = metric_at(fields, "/jitter_ms", Scale::Same);
    result.packet_loss_percent = metric_at(fields, "/packet_loss_percent", Scale::Same);
    result.bytes_downloaded = fields.integer("/bytes_downloaded");
    result.bytes_uploaded = fields.integer("/bytes_uploaded");
    result.interface = fields.string("/interface");
    result.result_url = fields.string("/result_url");
    result.timestamp = fields.string("/timestamp");
    assert(result@ == custom_view(stated(*fields)));
    match server_result(fields) {
        Ok(server) => {
            result.server = server;
            require_primary_metric(result)
        },
        Err(e) => Err(e),
    }
}

/// Reads Apple's output.
pub fn parse_apple(output: &str) -> (r: Result<SpeedtestResult, String>)
    ensures
        outcome_view(r) == match json::parsed(output@) {
            Ok(nodes) => required(apple_view(document(nodes))),
            Err(e) => Err(e),
        },
{
    let pointers = [
        "/dl_throughput",
        "/ul_throughput",
        "/base_rtt",
        "/responsiveness",
        "/dl_bytes_transferred",
        "/ul_bytes_transferred",
        "/interface_name",
        "/end_date",
        "/test_endpoint",
    ];
    let fields = match json::read(output, &pointers) {
        Ok(fields) => fields,
        Err(e) => {
            return Err(e);
        },
    };
    proof {
        let nodes = json::parsed(output@)->Ok_0;
        assert(pointers@[0]@ == "/dl_throughput"@);
        assert(pointers@[1]@ == "/ul_throughput"@);
        assert(pointers@[2]@ == "/base_rtt"@);
        assert(pointers@[3]@ == "/responsiveness"@);
        assert(pointers@[4]@ == "/dl_bytes_transferred"@);
        assert(pointers@[5]@ == "/ul_bytes_transferred"@);
        assert(pointers@[6]@ == "/interface_name"@);
        assert(pointers@[7]@ == "/end_date"@);
        assert(pointers@[8]@ == "/test_endpoint"@);
        assert(apple_view(stated(fields)) =~= apple_view(document(nodes)));
    }
    apple_result(&fields)
}

/// Reads Ookla's output.
pub fn parse_ookla(output: &str) -> (r: Result<SpeedtestResult, String>)
    ensures
        outcome_view(r) == match json::parsed(output@) {
            Ok(nodes) => required(ookla_view(document(nodes))),
            Err(e) => Err(e),
        },
{
    let pointers = [
        "/download/bandwidth",
        "/upload/bandwidth",
        "/ping/latency",
        "/ping/jitter",
        "/packetLoss",
        "/download/bytes",
        "/upload/bytes",
        "/interface/name",
        "/result/url",
        "/timestamp",
        "/server/id",
        "/server/name",
        "/server/location",
        "/server/host",
    ];
    let fields = match json::read(output, &pointers) {
        Ok(fields) => fields,
        Err(e) => {
            return Err(e);
        },
    };
    proof {
        let nodes = json::parsed(output@)->Ok_0;
        assert(pointers@[0]@ == "/download/bandwidth"@);
        assert(pointers@[1]@ == "/upload/bandwidth"@);
        assert(pointers@[2]@ == "/ping/latency"@);
        assert(pointers@[3]@ == "/ping/jitter"@);
        assert(pointers@[4]@ == "/packetLoss"@);
        assert(pointers@[5]@ == "/download/bytes"@);
        assert(pointers@[6]@ == "/upload/bytes"@);
        assert(pointers@[7]@ == "/interface/name"@);
        assert(pointers@[8]@ == "/result/url"@);
        assert(pointers@[9]@ == "/timestamp"@);
        assert(pointers@[10]@ == "/server/id"@);
        assert(pointers@[11]@ == "/server/name"@);
        assert(pointers@[12]@ == "/server/location"@);
        assert(pointers@[13]@ == "/server/host"@);
        assert(ookla_view(stated(fields)) =~= ookla_view(document(nodes)));
    }
    ookla_result(&fields)
}

/// Reads Netflix's output.
pub fn parse_netflix(output: &str) -> (r: Result<SpeedtestResult, String>)
    ensures
        outcome_view(r) == match json::parsed(output@) {
            Ok(nodes) => required(netflix_view(document(nodes))),
            Err(e) => Err(e),
        },
{
    let pointers = [
        "/downloadSpeed",
        "/uploadSpeed",
        "/latency",
        "/bufferBloat",
        "/userLocation",
    ];
    let fields = match json::read(output, &pointers) {
        Ok(fields) => fields,
        Err(e) => {
            return Err(e);
        },
    };
    proof {
        let nodes = json::parsed(output@)->Ok_0;
        assert(pointers@[0]@ == "/downloadSpeed"@);
        assert(pointers@[1]@ == "/uploadSpeed"@);
        assert(pointers@[2]@ == "/latency"@);
        assert(pointers@[3]@ == "/bufferBloat"@);
        assert(pointers@[4]@ == "/userLocation"@);
        assert(netflix_view(stated(fields)) =~= netflix_view(document(nodes)));
    }
    netflix_result(&fields)
}

/// Reads the output of a custom program.
pub fn parse_custom(output: &str) -> (r: Result<SpeedtestResult, String>)
    ensures
        outcome_view(r) == match json::parsed(output@) {
            Ok(nodes) => custom_outcome(document(nodes)),
            Err(e) => Err(e),
        },
{
    let pointers = [
        "/download_mbps",
        "/upload_mbps",
        "/ping_ms",
        "/loaded_latency_ms",
        "/jitter_ms",
        "/packet_loss_percent",
        "/bytes_downloaded",
        "/bytes_uploaded",
        "/interface",
        "/result_url",
        "/timestamp",
        "/server",
        "/server/id",
        "/server/name",
        "/server/location",
        "/server/host",
        "/server/0",
        "/server/1",
        "/server/2",
        "/server/3",
    ];
    let fields = match json::read(output, &pointers) {
        Ok(fields) => fields,
        Err(e) => {
            return Err(e);
        },
    };
    proof {
        let nodes = json::parsed(output@)->Ok_0;
        assert(pointers@[0]@ == "/download_mbps"@);
        assert(pointers@[1]@ == "/upload_mbps"@);
        assert(pointers@[2]@ == "/ping_ms"@);
        assert(pointers@[3]@ == "/loaded_latency_ms"@);
        assert(pointers@[4]@ == "/jitter_ms"@);
        assert(pointers@[5]@ == "/packet_loss_percent"@);
        assert(pointers@[6]@ == "/bytes_downloaded"@);
        assert(pointers@[7]@ == "/bytes_uploaded"@);
        assert(pointers@[8]@ == "/interface"@);
        assert(pointers@[9]@ == "/result_url"@);
        assert(pointers@[10]@ == "/timestamp"@);
        assert(pointers@[11]@ == "/server"@);
        assert(pointers@[12]@ == "/server/id"@);
        assert(pointers@[13]@ == "/server/name"@);
        assert(pointers@[14]@ == "/server/location"@);
        assert(pointers@[15]@ == "/server/host"@);
        assert(pointers@[16]@ == "/server/0"@);
        assert(pointers@[17]@ == "/server/1"@);
        assert(pointers@[18]@ == "/server/2"@);
        assert(pointers@[19]@ == "/server/3"@);
        assert(custom_view(stated(fields)) =~= custom_view(document(nodes)));
        assert(server_view(stated(fields)) == server_view(document(nodes)));
    }
    custom_result(&fields)
}

/// What an output means, given what the parser makes of it.
pub open spec fn meaning(
    provider: SpeedtestProvider,
    parsed: Result<Map<Seq<char>, NodeView>, Seq<char>>,
) -> Result<ResultView, Seq<char>> {
    match parsed {
        Ok(nodes) => match provider {
            SpeedtestProvider::Apple => required(apple_view(document(nodes))),
            SpeedtestProvider::Ookla => required(ookla_view(document(nodes))),
            SpeedtestProvider::Netflix => required(netflix_view(document(nodes))),
            SpeedtestProvider::Custom => custom_outcome(document(nodes)),
        },
        Err(e) => Err(e),
    }
}

/// Whatever a provider prints, a result names its provider and the version of
/// its form, and has at least one of download, upload and ping.
pub proof fn every_result_has_a_primary_metric(
    provider: SpeedtestProvider,
    parsed: Result<Map<Seq<char>, NodeView>, Seq<char>>,
)
    ensures
        meaning(provider, parsed) matches Ok(result) ==> has_primary(result) && result.provider
            == provider && result.schema_version == RESULT_SCHEMA_VERSION,
{
}

/// Why a run failed: perhaps what was attempted, and what went wrong.
#[derive(Debug)]
pub struct Failure {
    pub context: Option<String>,
    pub cause: String,
}

#[verifier::ext_equal]
pub struct FailureView {
    pub context: Option<Seq<char>>,
    pub cause: Seq<char>,
}

impl View for Failure {
    type V = FailureView;

    open spec fn view(&self) -> FailureView {
        FailureView { context: text::opt_text(self.context), cause: self.cause@ }
    }
}

impl FailureView {
    /// The failure on one line.
    pub open spec fn line(self) -> Seq<char> {
        match self.context {
            Some(context) => context + ": "@ + self.cause,
            None => self.cause,
        }
    }
}

impl Failure {
    /// The failure on one line.
    pub fn line(&self) -> (r: String)
        ensures
            r@ == self@.line(),
    {
        match &self.context {
            Some(context) => text::cat3(context.as_str(), ": ", self.cause.as_str()),
            None => self.cause.clone(),
        }
    }
}

/// The outcome of a run, up to views.
pub open spec fn run_view(r: Result<SpeedtestResult, Failure>) -> Result<ResultView, FailureView> {
    match r {
        Ok(result) => Ok(result@),
        Err(failure) => Err(failure@),
    }
}

/// The meaning of an output, with its context where it has none.
pub open spec fn parse_view(
    provider: SpeedtestProvider,
    parsed: Result<Map<Seq<char>, NodeView>, Seq<char>>,
) -> Result<ResultView, FailureView> {
    match meaning(provider, parsed) {
        Ok(result) => Ok(result),
        Err(cause) => Err(
            FailureView {
                context: Some("parse "@ + provider_name(provider) + " speed-test output"@),
                cause,
            },
        ),
    }
}

/// Reads the output of a provider.
pub fn parse_output(provider: SpeedtestProvider, output: &str) -> (r: Result<
    SpeedtestResult,
    Failure,
>)
    ensures
        run_view(r) == parse_view(provider, json::parsed(output@)),
{
    let read = match provider {
        SpeedtestProvider::Apple => parse_apple(output),
        SpeedtestProvider::Ookla => parse_ookla(output),
        SpeedtestProvider::Netflix => parse_netflix(output),
        SpeedtestProvider::Custom => parse_custom(output),
    };
    match read {
        Ok(result) => Ok(result),
        Err(cause) => Err(
            Failure {
                context: Some(text::cat3("parse ", provider.name(), " speed-test output")),
                cause,
            },
        ),
    }
}

// ---------------------------------------------------------------------------
// What is run.
// ---------------------------------------------------------------------------

/// A program and its arguments.
#[derive(Debug)]
pub struct Launch {
    pub program: String,
    pub args: Vec<String>,
    /// How long the process may take.
    pub limit: Duration,
}

#[verifier::ext_equal]
pub struct LaunchView {
    pub program: Seq<char>,
    pub args: Seq<Seq<char>>,
    pub limit: Duration,
}

impl View for Launch {
    type V = LaunchView;

    open spec fn view(&self) -> LaunchView {
        LaunchView { program: self.program@, args: text::texts(self.args@), limit: self.limit }
    }
}

/// The whole seconds of a span.
pub open spec fn secs_of(d: Duration) -> nat {
    (d.nanos / time::NANOS_PER_SEC) as nat
}

/// The program of a provider and its arguments; a custom provider needs one to
/// be configured.
pub open spec fn command_of(options: SpeedtestOptions) -> Result<
    (Seq<char>, Seq<Seq<char>>),
    Seq<char>,
> {
    match options.provider {
        SpeedtestProvider::Apple => Ok(
            (
                "/usr/bin/networkQuality"@,
                seq![
                    "-c"@,
                    "-M"@,
                    text::decimal(
                        if secs_of(options.timeout) < 1 {
                            1
                        } else {
                            secs_of(options.timeout)
                        },
                    ),
                ],
            ),
        ),
        SpeedtestProvider::Ookla => {
            let base = seq!["--format=json"@, "--accept-license"@, "--accept-gdpr"@];
            Ok(
                (
                    "speedtest"@,
                    match options.server_id {
                        Some(id) => base.push("--server-id="@ + text::decimal(id as nat)),
                        None => base,
                    },
                ),
            )
        },
        SpeedtestProvider::Netflix => Ok(("fast"@, seq!["--upload"@, "--json"@])),
        SpeedtestProvider::Custom => match options.custom_command {
            Some(command) => Ok((command@, text::texts(options.custom_args@))),
            None => Err(
                "the custom provider requires --custom-command or speedtest.custom_command"@,
            ),
        },
    }
}

/// The program of a provider and its arguments.
pub fn provider_command(options: &SpeedtestOptions) -> (r: Result<(String, Vec<String>), String>)
    requires
        options.timeout.nanos <= time::MAX_DURATION_NANOS,
    ensures
        match r {
            Ok(c) => command_of(*options) == Ok::<_, Seq<char>>((c.0@, text::texts(c.1@))),
            Err(e) => command_of(*options) == Err::<(Seq<char>, Seq<Seq<char>>), _>(e@),
        },
{
    match options.provider {
        SpeedtestProvider::Apple => {
            let whole: u64 = options.timeout.as_secs();
            let secs: u64 = if whole < 1 {
                1
            } else {
                whole
            };
            let mut args: Vec<String> = Vec::new();
            args.push("-c".to_owned());
            args.push("-M".to_owned());
            args.push(text::decimal_text(secs as u128));
            assert(text::texts(args@) =~= seq!["-c"@, "-M"@, text::decimal(secs as nat)]);
            Ok(("/usr/bin/networkQuality".to_owned(), args))
        },
        SpeedtestProvider::Ookla => {
            let mut args: Vec<String> = Vec::new();
            args.push("--format=json".to_owned());
            args.push("--accept-license".to_owned());
            args.push("--accept-gdpr".to_owned());
            let ghost base = seq!["--format=json"@, "--accept-license"@, "--accept-gdpr"@];
            assert(text::texts(args@) =~= base);
            if let Some(id) = options.server_id {
                let digits = text::decimal_text(id as u128);
                args.push(text::cat2("--server-id=", digits.as_str()));
                assert(text::texts(args@) =~= base.push("--server-id="@ + text::decimal(id as nat)));
            }
            Ok(("speedtest".to_owned(), args))
        },
        SpeedtestProvider::Netflix => {
            let mut args: Vec<String> = Vec::new();
            args.push("--upload".to_owned());
            args.push("--json".to_owned());
            assert(text::texts(args@) =~= seq!["--upload"@, "--json"@]);
            Ok(("fast".to_owned(), args))
        },
        SpeedtestProvider::Custom => match &options.custom_command {
            Some(command) => Ok((command.clone(), event::copy_strings(&options.custom_args))),
            None => Err(
                "the custom provider requires --custom-command or speedtest.custom_command".to_owned(),
            ),
        },
    }
}

/// What the user is told where a program cannot be run.
pub open spec fn hint(provider: SpeedtestProvider, program: Seq<char>) -> Seq<char> {
    match provider {
        SpeedtestProvider::Ookla =>
            "could not run `speedtest`; install the official Ookla Speedtest CLI"@,
        SpeedtestProvider::Netflix =>
            "could not run `fast`; install it with `npm install --global fast-cli`"@,
        _ => "could not run `"@ + program + "`"@,
    }
}

pub fn install_hint(provider: SpeedtestProvider, program: &str) -> (r: String)
    ensures
        r@ == hint(provider, program@),
{
    match provider {
        SpeedtestProvider::Ookla =>
            "could not run `speedtest`; install the official Ookla Speedtest CLI".to_owned(),
        SpeedtestProvider::Netflix =>
            "could not run `fast`; install it with `npm install --global fast-cli`".to_owned(),
        _ => text::cat3("could not run `", program, "`"),
    }
}

/// The extra seconds that Apple's program gets to write its result after it
/// has measured for the whole timeout.
pub const APPLE_GRACE_SECS: u64 = 5;

/// How long the process of a run may take.
pub open spec fn limit_of(provider: SpeedtestProvider, timeout: Duration) -> int {
    if provider == SpeedtestProvider::Apple {
        time::min_of(
            timeout.nanos + APPLE_GRACE_SECS * time::NANOS_PER_SEC,
            time::MAX_DURATION_NANOS as int,
        )
    } else {
        timeout.nanos as int
    }
}

pub fn process_timeout(provider: SpeedtestProvider, timeout: Duration) -> (r: Duration)
    ensures
        r.nanos == limit_of(provider, timeout),
{
    if matches!(provider, SpeedtestProvider::Apple) {
        timeout.saturating_add(Duration::from_secs(APPLE_GRACE_SECS))
    } else {
        timeout
    }
}

/// Where the browser is looked for that Netflix's program needs.
pub const CHROME: &'static str = "/Applications/Google Chrome.app/Contents/MacOS/Google Chrome";

/// The program is told where the browser is.
pub open spec fn told_the_browser(
    provider: SpeedtestProvider,
    configured: bool,
    installed: bool,
) -> bool {
    provider == SpeedtestProvider::Netflix && !configured && installed
}

/// Whether the program is told where the browser is: only Netflix's needs one,
/// and only where none is configured and one is installed.
pub fn names_browser(provider: SpeedtestProvider, configured: bool, installed: bool) -> (r: bool)
    ensures
        r == told_the_browser(provider, configured, installed),
        r == (provider == SpeedtestProvider::Netflix && !configured && installed),
{
    matches!(provider, SpeedtestProvider::Netflix) && !configured && installed
}

/// What is wrong with the options, if anything.
pub open spec fn objection(options: SpeedtestOptions) -> Option<Seq<char>> {
    if options.timeout.nanos == 0 {
        Some("speed-test timeout must be greater than zero"@)
    } else if options.server_id is Some && options.provider != SpeedtestProvider::Ookla {
        Some("--server-id is only supported by the Ookla provider"@)
    } else {
        match command_of(options) {
            Ok(_) => None,
            Err(e) => Some(e),
        }
    }
}

/// What a run launches, or what is wrong with the options.
pub fn plan(options: &SpeedtestOptions) -> (r: Result<Launch, String>)
    requires
        options.timeout.nanos <= time::MAX_DURATION_NANOS,
    ensures
        match r {
            Ok(launch) => {
                &&& objection(*options) is None
                &&& launch.program@ == (command_of(*options)->Ok_0).0
                &&& text::texts(launch.args@) == (command_of(*options)->Ok_0).1
                &&& launch.limit.nanos == limit_of(options.provider, options.timeout)
            },
            Err(e) => objection(*options) == Some(e@),
        },
{
    if options.timeout.is_zero() {
        return Err("speed-test timeout must be greater than zero".to_owned());
    }
    if options.server_id.is_some() && !matches!(options.provider, SpeedtestProvider::Ookla) {
        return Err("--server-id is only supported by the Ookla provider".to_owned());
    }
    match provider_command(options) {
        Ok((program, args)) => Ok(
            Launch { program, args, limit: process_timeout(options.provider, options.timeout) },
        ),
        Err(e) => Err(e),
    }
}

// ---------------------------------------------------------------------------
// The course of a run.
// ---------------------------------------------------------------------------

/// The metrics of a moment, as the bits of doubles in the reported units.
#[derive(Clone, Copy, Debug, PartialEq, Eq, Structural)]
pub struct LiveMetrics {
    pub download_mbps: Option<u64>,
    pub upload_mbps: Option<u64>,
    pub ping_ms: Option<u64>,
}

impl Default for LiveMetrics {
    fn default() -> (r: Self)
        ensures
            r == (LiveMetrics { download_mbps: None, upload_mbps: None, ping_ms: None }),
    {
        LiveMetrics { download_mbps: None, upload_mbps: None, ping_ms: None }
    }
}

/// What a run reports as it goes.
#[derive(Debug)]
pub enum SpeedtestEvent {
    Started { schema_version: u8, provider: SpeedtestProvider },
    Progress {
        schema_version: u8,
        provider: SpeedtestProvider,
        elapsed_ms: u64,
        live: LiveMetrics,
    },
    Complete { schema_version: u8, result: Box<SpeedtestResult> },
    Failed { schema_version: u8, provider: SpeedtestProvider, elapsed_ms: u64, error: String },
}

#[verifier::ext_equal]
pub enum SpeedtestEventView {
    Started { schema_version: u8, provider: SpeedtestProvider },
    Progress {
        schema_version: u8,
        provider: SpeedtestProvider,
        elapsed_ms: u64,
        live: LiveMetrics,
    },
    Complete { schema_version: u8, result: ResultView },
    Failed { schema_version: u8, provider: SpeedtestProvider, elapsed_ms: u64, error: Seq<char> },
}

impl View for SpeedtestEvent {
    type V = SpeedtestEventView;

    open spec fn view(&self) -> SpeedtestEventView {
        match *self {
            SpeedtestEvent::Started { schema_version, provider } => SpeedtestEventView::Started {
                schema_version,
                provider,
            },
            SpeedtestEvent::Progress { schema_version, provider, elapsed_ms, live } =>
                SpeedtestEventView::Progress { schema_version, provider, elapsed_ms, live },
            SpeedtestEvent::Complete { schema_version, result } => SpeedtestEventView::Complete {
                schema_version,
                result: (*result)@,
            },
            SpeedtestEvent::Failed { schema_version, provider, elapsed_ms, error } =>
                SpeedtestEventView::Failed {
                    schema_version,
                    provider,
                    elapsed_ms,
                    error: error@,
                },
        }
    }
}

/// What happens during a run.
#[derive(Debug)]
pub enum RunInput {
    /// The program could not be started, or waiting for it failed.
    SpawnFailed(String),
    WaitFailed(String),
    /// Half a second has passed.
    Tick(LiveMetrics),
    /// The process has used up its time.
    DeadlinePassed,
    /// The user asks to stop, or listening for that failed.
    Interrupted(Result<(), String>),
    Exited { success: bool, status: String, stdout: Vec<u8>, stderr: Vec<u8> },
}

/// A run.
#[derive(Debug)]
pub struct Session {
    pub provider: SpeedtestProvider,
    pub timeout: Duration,
    pub program: String,
    pub started: Instant,
    /// How the run ended, once it has.
    pub outcome: Option<Result<SpeedtestResult, Failure>>,
}

/// The milliseconds since a run started, as far as they can be counted.
pub open spec fn millis_since(started: Instant, now: Instant) -> u64 {
    let millis = time::nanos_between(now, started) / time::NANOS_PER_MILLI as int;
    if millis > u64::MAX {
        u64::MAX
    } else {
        millis as u64
    }
}

pub fn elapsed_ms(started: Instant, now: Instant) -> (r: u64)
    ensures
        r == millis_since(started, now),
{
    let millis: u128 = now.duration_since(started).as_millis();
    if millis > u64::MAX as u128 {
        u64::MAX
    } else {
        millis as u64
    }
}

pub open spec fn plain_failure(cause: Seq<char>) -> FailureView {
    FailureView { context: None, cause }
}

/// What a finished process means.
pub open spec fn exit_view(
    provider: SpeedtestProvider,
    success: bool,
    status: Seq<char>,
    stdout: Seq<u8>,
    stderr: Seq<u8>,
) -> Result<ResultView, FailureView> {
    let name = provider_name(provider);
    let complaint = text::trim_of(text::lossy_text(stderr));
    if !success {
        Err(
            plain_failure(
                if complaint.len() == 0 {
                    name + " speed test exited with "@ + status
                } else {
                    name + " speed test failed: "@ + complaint
                },
            ),
        )
    } else if !vstd::utf8::valid_utf8(stdout) {
        Err(
            FailureView {
                context: Some(name + " returned non-UTF-8 output"@),
                cause: text::utf8_failure(stdout),
            },
        )
    } else {
        parse_view(provider, json::parsed(vstd::utf8::decode_utf8(stdout)))
    }
}

/// Reads what a finished process has left.
pub fn read_exit(
    provider: SpeedtestProvider,
    success: bool,
    status: &str,
    stdout: Vec<u8>,
    stderr: &Vec<u8>,
) -> (r: Result<SpeedtestResult, Failure>)
    ensures
        run_view(r) == exit_view(provider, success, status@, stdout@, stderr@),
{
    if !success {
        let complaint = text::trim(text::lossy(stderr).as_str());
        let cause = if complaint.as_str().is_empty() {
            text::cat3(provider.name(), " speed test exited with ", status)
        } else {
            text::cat3(provider.name(), " speed test failed: ", complaint.as_str())
        };
        return Err(Failure { context: None, cause });
    }
    match text::utf8_text(stdout) {
        Ok(output) => parse_output(provider, output.as_str()),
        Err(cause) => Err(
            Failure {
                context: Some(text::cat2(provider.name(), " returned non-UTF-8 output")),
                cause,
            },
        ),
    }
}

/// How an input ends a run, if it does.
pub open spec fn conclusion(
    provider: SpeedtestProvider,
    timeout: Duration,
    program: Seq<char>,
    input: RunInput,
) -> Option<Result<ResultView, FailureView>> {
    let name = provider_name(provider);
    match input {
        RunInput::Tick(_) => None,
        RunInput::SpawnFailed(e) => Some(
            Err(FailureView { context: Some(hint(provider, program)), cause: e@ }),
        ),
        RunInput::WaitFailed(e) => Some(
            Err(FailureView { context: Some(hint(provider, program)), cause: e@ }),
        ),
        RunInput::DeadlinePassed => Some(
            Err(
                plain_failure(
                    name + " speed test timed out after "@ + text::decimal(secs_of(timeout))
                        + " seconds"@,
                ),
            ),
        ),
        RunInput::Interrupted(Ok(_)) => Some(
            Err(plain_failure(name + " speed test cancelled"@)),
        ),
        RunInput::Interrupted(Err(e)) => Some(
            Err(FailureView { context: Some("listen for Ctrl-C"@), cause: e@ }),
        ),
        RunInput::Exited { success, status, stdout, stderr } => Some(
            exit_view(provider, success, status@, stdout@, stderr@),
        ),
    }
}

/// The event that reports the end of a run.
pub open spec fn last_event(
    provider: SpeedtestProvider,
    elapsed_ms: u64,
    outcome: Result<ResultView, FailureView>,
) -> SpeedtestEventView {
    match outcome {
        Ok(result) => SpeedtestEventView::Complete {
            schema_version: RESULT_SCHEMA_VERSION,
            result,
        },
        Err(failure) => SpeedtestEventView::Failed {
            schema_version: RESULT_SCHEMA_VERSION,
            provider,
            elapsed_ms,
            error: failure.line(),
        },
    }
}

/// A result, stamped with how long the run took.
pub open spec fn stamped(
    outcome: Result<ResultView, FailureView>,
    duration_ms: u64,
) -> Result<ResultView, FailureView> {
    match outcome {
        Ok(result) => Ok(ResultView { duration_ms, ..result }),
        Err(failure) => Err(failure),
    }
}

/// A run as a mathematical value.
#[verifier::ext_equal]
pub struct SessionView {
    pub provider: SpeedtestProvider,
    pub timeout: Duration,
    pub program: Seq<char>,
    pub started: Instant,
    pub outcome: Option<Result<ResultView, FailureView>>,
}

impl View for Session {
    type V = SessionView;

    open spec fn view(&self) -> SessionView {
        SessionView {
            provider: self.provider,
            timeout: self.timeout,
            program: self.program@,
            started: self.started,
            outcome: match self.outcome {
                Some(r) => Some(run_view(r)),
                None => None,
            },
        }
    }
}

impl SessionView {
    /// The run and the events of its start.
    pub open spec fn begun(options: SpeedtestOptions, now: Instant) -> (
        SessionView,
        Seq<SpeedtestEventView>,
    ) {
        let provider = options.provider;
        let first = SpeedtestEventView::Started {
            schema_version: RESULT_SCHEMA_VERSION,
            provider,
        };
        match objection(options) {
            None => (
                SessionView {
                    provider,
                    timeout: options.timeout,
                    program: (command_of(options)->Ok_0).0,
                    started: now,
                    outcome: None,
                },
                seq![first],
            ),
            Some(cause) => {
                let outcome = Err(plain_failure(cause));
                (
                    SessionView {
                        provider,
                        timeout: options.timeout,
                        program: seq![],
                        started: now,
                        outcome: Some(outcome),
                    },
                    seq![first, last_event(provider, 0, outcome)],
                )
            },
        }
    }

    /// The run after an input, and what it reports. A run that is over takes
    /// no more inputs.
    pub open spec fn advanced(self, input: RunInput, now: Instant) -> (
        SessionView,
        Option<SpeedtestEventView>,
    ) {
        let elapsed_ms = millis_since(self.started, now);
        if self.outcome is Some {
            (self, None)
        } else {
            match input {
                RunInput::Tick(live) => (
                    self,
                    Some(
                        SpeedtestEventView::Progress {
                            schema_version: RESULT_SCHEMA_VERSION,
                            provider: self.provider,
                            elapsed_ms,
                            live,
                        },
                    ),
                ),
                _ => {
                    let outcome = stamped(
                        conclusion(self.provider, self.timeout, self.program, input)->0,
                        elapsed_ms,
                    );
                    (
                        SessionView { outcome: Some(outcome), ..self },
                        Some(last_event(self.provider, elapsed_ms, outcome)),
                    )
                },
            }
        }
    }

    /// All that a run has reported after a list of inputs.
    pub open spec fn reported(
        options: SpeedtestOptions,
        start: Instant,
        inputs: Seq<(RunInput, Instant)>,
    ) -> (SessionView, Seq<SpeedtestEventView>)
        decreases inputs.len(),
    {
        if inputs.len() == 0 {
            SessionView::begun(options, start)
        } else {
            let (session, events) = SessionView::reported(options, start, inputs.drop_last());
            let (next, event) = session.advanced(inputs.last().0, inputs.last().1);
            (
                next,
                match event {
                    Some(e) => events.push(e),
                    None => events,
                },
            )
        }
    }
}

fn report_end(
    provider: SpeedtestProvider,
    elapsed_ms: u64,
    outcome: &Result<SpeedtestResult, Failure>,
) -> (r: SpeedtestEvent)
    ensures
        r@ == last_event(provider, elapsed_ms, run_view(*outcome)),
{
    match outcome {
        Ok(result) => SpeedtestEvent::Complete {
            schema_version: RESULT_SCHEMA_VERSION,
            result: Box::new(result.clone()),
        },
        Err(failure) => SpeedtestEvent::Failed {
            schema_version: RESULT_SCHEMA_VERSION,
            provider,
            elapsed_ms,
            error: failure.line(),
        },
    }
}

/// The events of a list.
pub open spec fn speedtest_event_views(v: Seq<SpeedtestEvent>) -> Seq<SpeedtestEventView> {
    Seq::new(v.len(), |i: int| v[i]@)
}

/// Starts a run. It is over at once where something is wrong with the options;
/// otherwise there is something to launch.
pub fn run_with_progress(options: &SpeedtestOptions, now: Instant) -> (r: (
    Session,
    Vec<SpeedtestEvent>,
    Option<Launch>,
))
    requires
        options.timeout.nanos <= time::MAX_DURATION_NANOS,
    ensures
        (r.0@, speedtest_event_views(r.1@)) == SessionView::begun(*options, now),
        r.2 is Some <==> objection(*options) is None,
        r.2 matches Some(launch) ==> launch.program@ == (command_of(*options)->Ok_0).0
            && text::texts(launch.args@) == (command_of(*options)->Ok_0).1 && launch.limit.nanos
            == limit_of(options.provider, options.timeout),
{
    let provider = options.provider;
    let mut events: Vec<SpeedtestEvent> = Vec::new();
    events.push(SpeedtestEvent::Started { schema_version: RESULT_SCHEMA_VERSION, provider });
    match plan(options) {
        Ok(launch) => {
            let session = Session {
                provider,
                timeout: options.timeout,
                program: launch.program.clone(),
                started: now,
                outcome: None,
            };
            assert(speedtest_event_views(events@) =~= SessionView::begun(*options, now).1);
            (session, events, Some(launch))
        },
        Err(cause) => {
            let outcome = Err(Failure { context: None, cause });
            events.push(report_end(provider, 0, &outcome));
            let session = Session {
                provider,
                timeout: options.timeout,
                program: String::new(),
                started: now,
                outcome: Some(outcome),
            };
            assert(speedtest_event_views(events@) =~= SessionView::begun(*options, now).1);
            (session, events, None)
        },
    }
}

impl Session {
    /// Takes an input and says what to report.
    pub fn advance(&mut self, input: RunInput, now: Instant) -> (r: Option<SpeedtestEvent>)
        requires
            old(self).timeout.nanos <= time::MAX_DURATION_NANOS,
        ensures
            final(self).timeout == old(self).timeout,
            (final(self)@, match r {
                Some(e) => Some(e@),
                None => None,
            }) == old(self)@.advanced(input, now),
    {
        if self.outcome.is_some() {
            return None;
        }
        let provider = self.provider;
        let elapsed: u64 = elapsed_ms(self.started, now);
        let outcome: Result<SpeedtestResult, Failure> = match input {
            RunInput::Tick(live) => {
                return Some(
                    SpeedtestEvent::Progress {
                        schema_version: RESULT_SCHEMA_VERSION,
                        provider,
                        elapsed_ms: elapsed,
                        live,
                    },
                );
            },
            RunInput::SpawnFailed(cause) => Err(
                Failure {
                    context: Some(install_hint(provider, self.program.as_str())),
                    cause,
                },
            ),
            RunInput::WaitFailed(cause) => Err(
                Failure {
                    context: Some(install_hint(provider, self.program.as_str())),
                    cause,
                },
            ),
            RunInput::DeadlinePassed => {
                let secs = text::decimal_text(self.timeout.as_secs() as u128);
                Err(
                    Failure {
                        context: None,
                        cause: text::cat4(
                            provider.name(),
                            " speed test timed out after ",
                            secs.as_str(),
                            " seconds",
                        ),
                    },
                )
            },
            RunInput::Interrupted(Ok(_)) => Err(
                Failure {
                    context: None,
                    cause: text::cat2(provider.name(), " speed test cancelled"),
                },
            ),
            RunInput::Interrupted(Err(cause)) => Err(
                Failure { context: Some("listen for Ctrl-C".to_owned()), cause },
            ),
            RunInput::Exited { success, status, stdout, stderr } => read_exit(
                provider,
                success,
                status.as_str(),
                stdout,
                &stderr,
            ),
        };
        let outcome = match outcome {
            Ok(result) => {
                let mut result = result;
                result.duration_ms = elapsed;
                Ok(result)
            },
            Err(failure) => Err(failure),
        };
        let event = report_end(provider, elapsed, &outcome);
        self.outcome = Some(outcome);
        Some(event)
    }
}

/// What becomes of the processes of a run.
#[derive(Clone, Copy, Debug, PartialEq, Eq, Structural)]
pub enum GroupFate {
    /// They may go on, or have never been started.
    Spared,
    Killed,
}

/// What becomes of the processes of a run after an input.
pub open spec fn fate_after(input: RunInput) -> GroupFate {
    match input {
        RunInput::WaitFailed(_) => GroupFate::Killed,
        RunInput::DeadlinePassed => GroupFate::Killed,
        RunInput::Interrupted(_) => GroupFate::Killed,
        _ => GroupFate::Spared,
    }
}

/// Whether the processes of a run are killed: always where it ends while they
/// may still be there, and never where they have come to their own end.
pub fn group_fate(input: &RunInput) -> (r: GroupFate)
    ensures
        r == fate_after(*input),
        r == (match *input {
            RunInput::WaitFailed(_) => GroupFate::Killed,
            RunInput::DeadlinePassed => GroupFate::Killed,
            RunInput::Interrupted(_) => GroupFate::Killed,
            _ => GroupFate::Spared,
        }),
{
    match input {
        RunInput::WaitFailed(_) => GroupFate::Killed,
        RunInput::DeadlinePassed => GroupFate::Killed,
        RunInput::Interrupted(_) => GroupFate::Killed,
        _ => GroupFate::Spared,
    }
}

/// The group of a process, as a signal addresses it.
pub open spec fn group_of(pid: i32) -> Option<i32> {
    if pid > 0 {
        Some((-pid) as i32)
    } else {
        None
    }
}

/// The ping that is shown after another one.
pub open spec fn ping_after(shown: Option<u64>, measured: Option<u64>) -> Option<u64> {
    if measured is Some {
        measured
    } else {
        shown
    }
}

/// The process group that a run has started, until it is known to be gone.
#[derive(Clone, Copy, Debug)]
pub struct ProcessGroupGuard {
    /// Zero where there is nothing to kill.
    pub pid: i32,
}

impl ProcessGroupGuard {
    /// Guards the group of a process.
    pub fn new(pid: u32) -> (r: Self)
        ensures
            r.pid == pid as i32,
    {
        ProcessGroupGuard {
            pid: #[verifier::truncate]
            (pid as i32),
        }
    }

    /// The process id to send a signal to: the group, which is the negated id;
    /// none where there is nothing to kill.
    pub fn kill(&self) -> (r: Option<i32>)
        ensures
            r == group_of(self.pid),
            r == if self.pid > 0 {
                Some((-self.pid) as i32)
            } else {
                None
            },
    {
        if self.pid > 0 {
            Some(-self.pid)
        } else {
            None
        }
    }

    /// The group has come to its own end.
    pub fn disarm(&mut self)
        ensures
            final(self).pid == 0,
    {
        self.pid = 0;
    }
}

/// An event that ends a run.
pub open spec fn is_end(event: SpeedtestEventView) -> bool {
    event is Complete || event is Failed
}

/// Whatever happens, a run reports first that it has started, then its
/// progress, and at most once, last of all, how it has ended; and it has
/// reported its end exactly where it is over.
pub proof fn a_run_starts_once_and_ends_once(
    options: SpeedtestOptions,
    start: Instant,
    inputs: Seq<(RunInput, Instant)>,
)
    ensures
        ({
            let (session, events) = SessionView::reported(options, start, inputs);
            &&& events.len() >= 1
            &&& events[0] is Started
            &&& forall|i: int| 1 <= i < events.len() - 1 ==> (#[trigger] events[i]) is Progress
            &&& events.len() > 1 ==> events.last() is Progress || is_end(events.last())
            &&& session.outcome is Some <==> is_end(events.last())
        }),
    decreases inputs.len(),
{
    if inputs.len() > 0 {
        a_run_starts_once_and_ends_once(options, start, inputs.drop_last());
    }
}

/// Once a run is over nothing changes any more.
pub proof fn a_finished_run_stays_finished(session: SessionView, input: RunInput, now: Instant)
    requires
        session.outcome is Some,
    ensures
        session.advanced(input, now) == (session, None::<SpeedtestEventView>),
{
}

// ---------------------------------------------------------------------------
// Live samples.
// ---------------------------------------------------------------------------

/// The byte counters of an interface at one moment.
#[derive(Clone, Copy, Debug, PartialEq, Eq, Structural)]
pub struct InterfaceCounters {
    pub sampled_at: Instant,
    pub inbound_bytes: u64,
    pub outbound_bytes: u64,
}

/// Bytes over a span of time.
#[derive(Clone, Copy, Debug, PartialEq, Eq, Structural)]
pub struct Rate {
    pub bytes: u64,
    pub nanos: u128,
}

/// What flowed between two samples; none for a counter that went back.
pub open spec fn rates(
    previous: Option<InterfaceCounters>,
    current: Option<InterfaceCounters>,
) -> (Option<Rate>, Option<Rate>) {
    match (previous, current) {
        (Some(p), Some(c)) => {
            let nanos = time::nanos_between(c.sampled_at, p.sampled_at) as u128;
            (
                if c.inbound_bytes >= p.inbound_bytes {
                    Some(Rate { bytes: (c.inbound_bytes - p.inbound_bytes) as u64, nanos })
                } else {
                    None
                },
                if c.outbound_bytes >= p.outbound_bytes {
                    Some(Rate { bytes: (c.outbound_bytes - p.outbound_bytes) as u64, nanos })
                } else {
                    None
                },
            )
        },
        _ => (None, None),
    }
}

/// The seconds between two pings.
pub const PING_SECS: u64 = 1;

/// It is time for another ping.
pub open spec fn time_to_ping(last: Option<Instant>, now: Instant) -> bool {
    match last {
        None => true,
        Some(last) => time::nanos_between(now, last) >= PING_SECS * time::NANOS_PER_SEC,
    }
}

/// What samples the traffic of the default interface during a run.
#[derive(Debug)]
pub struct LiveSampler {
    pub interface: String,
    pub previous: Option<InterfaceCounters>,
    /// The last ping that was answered, as the bits of a double.
    pub ping_ms: Option<u64>,
    pub last_ping: Option<Instant>,
}

impl LiveSampler {
    pub fn new(interface: String, previous: Option<InterfaceCounters>) -> (r: Self)
        ensures
            r.interface == interface,
            r.previous == previous,
            r.ping_ms is None,
            r.last_ping is None,
    {
        LiveSampler { interface, previous, ping_ms: None, last_ping: None }
    }

    /// Takes the counters of a new sample: what came in and what went out
    /// since the last one.
    pub fn sample(&mut self, current: Option<InterfaceCounters>) -> (r: (
        Option<Rate>,
        Option<Rate>,
    ))
        ensures
            r == rates(old(self).previous, current),
            final(self).previous == current,
            final(self).interface == old(self).interface,
            final(self).ping_ms == old(self).ping_ms,
            final(self).last_ping == old(self).last_ping,
    {
        let r = match (self.previous, current) {
            (Some(p), Some(c)) => {
                let nanos: u128 = c.sampled_at.duration_since(p.sampled_at).nanos;
                let inbound = if c.inbound_bytes >= p.inbound_bytes {
                    Some(Rate { bytes: c.inbound_bytes - p.inbound_bytes, nanos })
                } else {
                    None
                };
                let outbound = if c.outbound_bytes >= p.outbound_bytes {
                    Some(Rate { bytes: c.outbound_bytes - p.outbound_bytes, nanos })
                } else {
                    None
                };
                (inbound, outbound)
            },
            _ => (None, None),
        };
        self.previous = current;
        r
    }

    /// Whether to ping now: the first time, and then once a second. The
    /// moment counts as the last ping even where nothing answers.
    pub fn ping_due(&mut self, now: Instant) -> (due: bool)
        ensures
            due == time_to_ping(old(self).last_ping, now),
            due == (match old(self).last_ping {
                None => true,
                Some(last) => time::nanos_between(now, last) >= PING_SECS * time::NANOS_PER_SEC,
            }),
            final(self).last_ping == if due {
                Some(now)
            } else {
                old(self).last_ping
            },
            final(self).interface == old(self).interface,
            final(self).previous == old(self).previous,
            final(self).ping_ms == old(self).ping_ms,
    {
        let due = match self.last_ping {
            None => true,
            Some(last) => now.duration_since(last).nanos >= Duration::from_secs(PING_SECS).nanos,
        };
        if due {
            self.last_ping = Some(now);
        }
        due
    }

    /// Takes the outcome of a ping. One that was not answered leaves the last
    /// value in place.
    pub fn pinged(&mut self, measured: Option<u64>)
        ensures
            final(self).ping_ms == ping_after(old(self).ping_ms, measured),
            final(self).ping_ms == if measured is Some {
                measured
            } else {
                old(self).ping_ms
            },
            final(self).interface == old(self).interface,
            final(self).previous == old(self).previous,
            final(self).last_ping == old(self).last_ping,
    {
        if measured.is_some() {
            self.ping_ms = measured;
        }
    }
}

/// The interface that a line of the routing table names, if it does.
pub open spec fn interface_of_line(line: Seq<char>) -> Option<Seq<char>> {
    let t = text::trim_of(line);
    if text::has_prefix(t, "interface:"@) {
        let value = text::trim_of(t.skip("interface:"@.len() as int));
        if value.len() > 0 {
            Some(value)
        } else {
            None
        }
    } else {
        None
    }
}

/// The interface of the first line that names one.
pub open spec fn interface_in(lines: Seq<Seq<char>>) -> Option<Seq<char>>
    decreases lines.len(),
{
    if lines.len() == 0 {
        None
    } else {
        match interface_of_line(lines[0]) {
            Some(name) => Some(name),
            None => interface_in(lines.skip(1)),
        }
    }
}

/// The interface of the default route, out of what the `route` program prints.
pub fn parse_default_interface(output: &str) -> (r: Option<String>)
    ensures
        text::opt_text(r) == interface_in(text::lines_of(output@)),
{
    let lines = text::lines(output);
    let ghost all = text::texts(lines@);
    let mut i: usize = 0;
    assert(all.skip(0) =~= all);
    while i < lines.len()
        invariant
            i <= lines@.len(),
            all == text::texts(lines@),
            all == text::lines_of(output@),
            interface_in(all.skip(i as int)) == interface_in(all),
        decreases lines@.len() - i,
    {
        assert(all.skip(i as int)[0] == lines@[i as int]@);
        assert(all.skip(i as int).skip(1) =~= all.skip(i + 1));
        let t = text::trim(lines[i].as_str());
        if let Some(rest) = text::strip_prefix(t.as_str(), "interface:") {
            let value = text::trim(rest.as_str());
            if !value.as_str().is_empty() {
                return Some(value);
            }
        }
        i += 1;
    }
    None
}

/// The counters that a line of the interface table gives for `interface`, if
/// it is of that interface and has them.
pub open spec fn counters_of_line(line: Seq<char>, interface: Seq<char>) -> Option<(u64, u64)> {
    let words = text::words_of(line);
    if words.len() >= 10 && words[0] == interface {
        match (text::u64_of(words[6]), text::u64_of(words[9])) {
            (Some(inbound), Some(outbound)) => Some((inbound, outbound)),
            _ => None,
        }
    } else {
        None
    }
}

/// The counters of the first line that gives them.
pub open spec fn counters_in(lines: Seq<Seq<char>>, interface: Seq<char>) -> Option<(u64, u64)>
    decreases lines.len(),
{
    if lines.len() == 0 {
        None
    } else {
        match counters_of_line(lines[0], interface) {
            Some(counters) => Some(counters),
            None => counters_in(lines.skip(1), interface),
        }
    }
}

/// The inbound and outbound bytes of an interface, out of what the `netstat`
/// program prints.
pub fn parse_interface_counters(output: &str, interface: &str) -> (r: Option<(u64, u64)>)
    ensures
        r == counters_in(text::lines_of(output@), interface@),
{
    let lines = text::lines(output);
    let ghost all = text::texts(lines@);
    let mut i: usize = 0;
    assert(all.skip(0) =~= all);
    while i < lines.len()
        invariant
            i <= lines@.len(),
            all == text::texts(lines@),
            all == text::lines_of(output@),
            counters_in(all.skip(i as int), interface@) == counters_in(all, interface@),
        decreases lines@.len() - i,
    {
        assert(all.skip(i as int)[0] == lines@[i as int]@);
        assert(all.skip(i as int).skip(1) =~= all.skip(i + 1));
        let words = text::words(lines[i].as_str());
        let ghost view = text::texts(words@);
        if words.len() >= 10 {
            assert(view[0] == words@[0]@ && view[6] == words@[6]@ && view[9] == words@[9]@);
            if text::same_text(words[0].as_str(), interface) {
                if let Some(inbound) = text::parse_u64(words[6].as_str()) {
                    if let Some(outbound) = text::parse_u64(words[9].as_str()) {
                        return Some((inbound, outbound));
                    }
                }
            }
        }
        i += 1;
    }
    None
}

/// The round-trip time that the `ping` program prints, in its own digits.
pub open spec fn ping_in(output: Seq<char>) -> Option<Seq<char>> {
    match text::between_of(output, "time="@, " ms"@) {
        Some(value) => Some(text::trim_of(value)),
        None => None,
    }
}

/// The round-trip time that the `ping` program prints, in its own digits.
pub fn parse_ping(output: &str) -> (r: Option<String>)
    ensures
        text::opt_text(r) == ping_in(output@),
        text::opt_text(r) == match text::between_of(output@, "time="@, " ms"@) {
            Some(value) => Some(text::trim_of(value)),
            None => None,
        },
{
    match text::between(output, "time=", " ms") {
        Some(value) => Some(text::trim(value.as_str())),
        None => None,
    }
}

// ---------------------------------------------------------------------------
// Laws of what is measured.
// ---------------------------------------------------------------------------

/// The number at a pointer of a document, as a measured value.
pub open spec fn number_at(
    nodes: Map<Seq<char>, NodeView>,
    pointer: Seq<char>,
    scale: Scale,
) -> Option<Metric> {
    if nodes.contains_key(pointer) {
        match nodes[pointer] {
            NodeView::Number { double: Some(bits), .. } => Some(Metric { bits, scale }),
            _ => None,
        }
    } else {
        None
    }
}

/// The unsigned integer at a pointer of a document.
pub open spec fn count_at(nodes: Map<Seq<char>, NodeView>, pointer: Seq<char>) -> Option<u64> {
    if nodes.contains_key(pointer) {
        match nodes[pointer] {
            NodeView::Number { integer, .. } => integer,
            _ => None,
        }
    } else {
        None
    }
}

/// The string at a pointer of a document.
pub open spec fn words_at(nodes: Map<Seq<char>, NodeView>, pointer: Seq<char>) -> Option<
    Seq<char>,
> {
    if nodes.contains_key(pointer) {
        match nodes[pointer] {
            NodeView::Text(s) => Some(s),
            _ => None,
        }
    } else {
        None
    }
}

/// What is read from Apple's output: every value from the field of its own name,
/// and none where that field is missing or of another kind. Throughputs are
/// read as bits per second, and the server is the endpoint of the test.
/// There is a result exactly where download, upload or ping was measured.
pub proof fn apple_values_come_from_their_own_fields(nodes: Map<Seq<char>, NodeView>)
    ensures
        meaning(SpeedtestProvider::Apple, Ok(nodes)) is Ok <==> number_at(nodes, "/dl_throughput"@, Scale::BitsPerSecond) is Some || number_at(nodes, "/ul_throughput"@, Scale::BitsPerSecond) is Some || number_at(nodes, "/base_rtt"@, Scale::Same) is Some,
        meaning(SpeedtestProvider::Apple, Ok(nodes)) matches Ok(r) ==> {
            &&& r.schema_version == 1
            &&& r.provider is Apple
            &&& r.duration_ms == 0
            &&& r.download_mbps == number_at(nodes, "/dl_throughput"@, Scale::BitsPerSecond)
            &&& r.upload_mbps == number_at(nodes, "/ul_throughput"@, Scale::BitsPerSecond)
            &&& r.ping_ms == number_at(nodes, "/base_rtt"@, Scale::Same)
            &&& r.responsiveness_rpm == number_at(nodes, "/responsiveness"@, Scale::Same)
            &&& r.bytes_downloaded == count_at(nodes, "/dl_bytes_transferred"@)
            &&& r.bytes_uploaded == count_at(nodes, "/ul_bytes_transferred"@)
            &&& r.interface == words_at(nodes, "/interface_name"@)
            &&& r.timestamp == words_at(nodes, "/end_date"@)
            &&& r.loaded_latency_ms is None
            &&& r.jitter_ms is None
            &&& r.packet_loss_percent is None
            &&& r.result_url is None
            &&& r.server is Some <==> words_at(nodes, "/test_endpoint"@) is Some
            &&& r.server matches Some(s) ==> s.host == words_at(nodes, "/test_endpoint"@) && s.id
                is None && s.name is None && s.location is None
        },
{
}

/// What is read from Ookla's output: every value from the field of its own name,
/// and none where that field is missing or of another kind. Bandwidths are
/// read as bytes per second, and there is always a server, of which all or
/// nothing may be known.
/// There is a result exactly where download, upload or ping was measured.
pub proof fn ookla_values_come_from_their_own_fields(nodes: Map<Seq<char>, NodeView>)
    ensures
        meaning(SpeedtestProvider::Ookla, Ok(nodes)) is Ok <==> number_at(nodes, "/download/bandwidth"@, Scale::BytesPerSecond) is Some || number_at(nodes, "/upload/bandwidth"@, Scale::BytesPerSecond) is Some || number_at(nodes, "/ping/latency"@, Scale::Same) is Some,
        meaning(SpeedtestProvider::Ookla, Ok(nodes)) matches Ok(r) ==> {
            &&& r.schema_version == 1
            &&& r.provider is Ookla
            &&& r.duration_ms == 0
            &&& r.download_mbps == number_at(nodes, "/download/bandwidth"@, Scale::BytesPerSecond)
            &&& r.upload_mbps == number_at(nodes, "/upload/bandwidth"@, Scale::BytesPerSecond)
            &&& r.ping_ms == number_at(nodes, "/ping/latency"@, Scale::Same)
            &&& r.jitter_ms == number_at(nodes, "/ping/jitter"@, Scale::Same)
            &&& r.packet_loss_percent == number_at(nodes, "/packetLoss"@, Scale::Same)
            &&& r.bytes_downloaded == count_at(nodes, "/download/bytes"@)
            &&& r.bytes_uploaded == count_at(nodes, "/upload/bytes"@)
            &&& r.interface == words_at(nodes, "/interface/name"@)
            &&& r.result_url == words_at(nodes, "/result/url"@)
            &&& r.timestamp == words_at(nodes, "/timestamp"@)
            &&& r.loaded_latency_ms is None
            &&& r.responsiveness_rpm is None
            &&& r.server matches Some(s) && s.id == count_at(nodes, "/server/id"@) && s.name
                == words_at(nodes, "/server/name"@) && s.location == words_at(
                nodes,
                "/server/location"@,
            ) && s.host == words_at(nodes, "/server/host"@)
        },
{
}

/// What is read from Netflix's output: every value from the field of its own name,
/// and none where that field is missing or of another kind. Speeds are read
/// as they are, and the server is known where the user's place is.
/// There is a result exactly where download, upload or ping was measured.
pub proof fn netflix_values_come_from_their_own_fields(nodes: Map<Seq<char>, NodeView>)
    ensures
        meaning(SpeedtestProvider::Netflix, Ok(nodes)) is Ok <==> number_at(nodes, "/downloadSpeed"@, Scale::Same) is Some || number_at(nodes, "/uploadSpeed"@, Scale::Same) is Some || number_at(nodes, "/latency"@, Scale::Same) is Some,
        meaning(SpeedtestProvider::Netflix, Ok(nodes)) matches Ok(r) ==> {
            &&& r.schema_version == 1
            &&& r.provider is Netflix
            &&& r.duration_ms == 0
            &&& r.download_mbps == number_at(nodes, "/downloadSpeed"@, Scale::Same)
            &&& r.upload_mbps == number_at(nodes, "/uploadSpeed"@, Scale::Same)
            &&& r.ping_ms == number_at(nodes, "/latency"@, Scale::Same)
            &&& r.loaded_latency_ms == number_at(nodes, "/bufferBloat"@, Scale::Same)
            &&& r.jitter_ms is None
            &&& r.packet_loss_percent is None
            &&& r.responsiveness_rpm is None
            &&& r.bytes_downloaded is None
            &&& r.bytes_uploaded is None
            &&& r.interface is None
            &&& r.result_url is None
            &&& r.timestamp is None
            &&& r.server is Some <==> words_at(nodes, "/userLocation"@) is Some
            &&& r.server matches Some(s) ==> s.location == words_at(nodes, "/userLocation"@)
                && s.name == Some("fast.com"@) && s.host == Some("fast.com"@) && s.id is None
        },
{
}

/// What is read from a custom program's output: every value from the field of its own name,
/// and none where that field is missing or of another kind. Everything is
/// read as it is.
/// There is a result exactly where download, upload or ping was measured.
pub proof fn custom_values_come_from_their_own_fields(nodes: Map<Seq<char>, NodeView>)
    requires
        !nodes.contains_key("/server"@),
    ensures
        meaning(SpeedtestProvider::Custom, Ok(nodes)) is Ok <==> number_at(nodes, "/download_mbps"@, Scale::Same) is Some || number_at(nodes, "/upload_mbps"@, Scale::Same) is Some || number_at(nodes, "/ping_ms"@, Scale::Same) is Some,
        meaning(SpeedtestProvider::Custom, Ok(nodes)) matches Ok(r) ==> {
            &&& r.schema_version == 1
            &&& r.provider is Custom
            &&& r.duration_ms == 0
            &&& r.download_mbps == number_at(nodes, "/download_mbps"@, Scale::Same)
            &&& r.upload_mbps == number_at(nodes, "/upload_mbps"@, Scale::Same)
            &&& r.ping_ms == number_at(nodes, "/ping_ms"@, Scale::Same)
            &&& r.loaded_latency_ms == number_at(nodes, "/loaded_latency_ms"@, Scale::Same)
            &&& r.jitter_ms == number_at(nodes, "/jitter_ms"@, Scale::Same)
            &&& r.packet_loss_percent == number_at(nodes, "/packet_loss_percent"@, Scale::Same)
            &&& r.bytes_downloaded == count_at(nodes, "/bytes_downloaded"@)
            &&& r.bytes_uploaded == count_at(nodes, "/bytes_uploaded"@)
            &&& r.interface == words_at(nodes, "/interface"@)
            &&& r.result_url == words_at(nodes, "/result_url"@)
            &&& r.timestamp == words_at(nodes, "/timestamp"@)
            &&& r.responsiveness_rpm is None
            &&& r.server is None
        },
{
    assert(document(nodes)("/server"@) is None);
}

/// Two documents of Apple's output that differ in one of the measured fields
/// give results that differ in, and only in, the value of that field.
pub proof fn apple_values_change_one_by_one(nodes: Map<Seq<char>, NodeView>, node: NodeView)
    ensures
        ({
            let read = |nodes: Map<Seq<char>, NodeView>| apple_view(document(nodes));
            let first = nodes.insert("/dl_throughput"@, node);
            let second = nodes.insert("/ul_throughput"@, node);
            let third = nodes.insert("/base_rtt"@, node);
            &&& read(first) == (ResultView {
                download_mbps: number_at(first, "/dl_throughput"@, Scale::BitsPerSecond),
                ..read(nodes)
            })
            &&& read(second) == (ResultView {
                upload_mbps: number_at(second, "/ul_throughput"@, Scale::BitsPerSecond),
                ..read(nodes)
            })
            &&& read(third) == (ResultView {
                ping_ms: number_at(third, "/base_rtt"@, Scale::Same),
                ..read(nodes)
            })
        }),
{
    reveal_strlit("/dl_throughput");
    reveal_strlit("/ul_throughput");
    reveal_strlit("/base_rtt");
    reveal_strlit("/responsiveness");
    reveal_strlit("/dl_bytes_transferred");
    reveal_strlit("/ul_bytes_transferred");
    reveal_strlit("/interface_name");
    reveal_strlit("/end_date");
    reveal_strlit("/test_endpoint");
    assert("/dl_throughput"@.len() == 14);
    assert("/ul_throughput"@.len() == 14);
    assert("/base_rtt"@.len() == 9);
    assert("/responsiveness"@.len() == 15);
    assert("/dl_bytes_transferred"@.len() == 21);
    assert("/ul_bytes_transferred"@.len() == 21);
    assert("/interface_name"@.len() == 15);
    assert("/end_date"@.len() == 9);
    assert("/test_endpoint"@.len() == 14);
    assert("/dl_throughput"@[1] != "/ul_throughput"@[1]);
    assert("/dl_throughput"@[1] != "/test_endpoint"@[1]);
    assert("/ul_throughput"@[1] != "/test_endpoint"@[1]);
    assert("/base_rtt"@[1] != "/end_date"@[1]);
    assert("/responsiveness"@[1] != "/interface_name"@[1]);
    assert("/dl_bytes_transferred"@[1] != "/ul_bytes_transferred"@[1]);
    let first = nodes.insert("/dl_throughput"@, node);
    assert(document(first)("/ul_throughput"@) == document(nodes)("/ul_throughput"@));
    assert(document(first)("/base_rtt"@) == document(nodes)("/base_rtt"@));
    assert(document(first)("/responsiveness"@) == document(nodes)("/responsiveness"@));
    assert(document(first)("/dl_bytes_transferred"@) == document(nodes)("/dl_bytes_transferred"@));
    assert(document(first)("/ul_bytes_transferred"@) == document(nodes)("/ul_bytes_transferred"@));
    assert(document(first)("/interface_name"@) == document(nodes)("/interface_name"@));
    assert(document(first)("/end_date"@) == document(nodes)("/end_date"@));
    assert(document(first)("/test_endpoint"@) == document(nodes)("/test_endpoint"@));
    assert(apple_view(document(first)) =~= (ResultView {
        download_mbps: number_at(first, "/dl_throughput"@, Scale::BitsPerSecond),
        ..apple_view(document(nodes))
    }));
    let second = nodes.insert("/ul_throughput"@, node);
    assert(document(second)("/dl_throughput"@) == document(nodes)("/dl_throughput"@));
    assert(document(second)("/base_rtt"@) == document(nodes)("/base_rtt"@));
    assert(document(second)("/responsiveness"@) == document(nodes)("/responsiveness"@));
    assert(document(second)("/dl_bytes_transferred"@) == document(nodes)("/dl_bytes_transferred"@));
    assert(document(second)("/ul_bytes_transferred"@) == document(nodes)("/ul_bytes_transferred"@));
    assert(document(second)("/interface_name"@) == document(nodes)("/interface_name"@));
    assert(document(second)("/end_date"@) == document(nodes)("/end_date"@));
    assert(document(second)("/test_endpoint"@) == document(nodes)("/test_endpoint"@));
    assert(apple_view(document(second)) =~= (ResultView {
        upload_mbps: number_at(second, "/ul_throughput"@, Scale::BitsPerSecond),
        ..apple_view(document(nodes))
    }));
    let third = nodes.insert("/base_rtt"@, node);
    assert(document(third)("/dl_throughput"@) == document(nodes)("/dl_throughput"@));
    assert(document(third)("/ul_throughput"@) == document(nodes)("/ul_throughput"@));
    assert(document(third)("/responsiveness"@) == document(nodes)("/responsiveness"@));
    assert(document(third)("/dl_bytes_transferred"@) == document(nodes)("/dl_bytes_transferred"@));
    assert(document(third)("/ul_bytes_transferred"@) == document(nodes)("/ul_bytes_transferred"@));
    assert(document(third)("/interface_name"@) == document(nodes)("/interface_name"@));
    assert(document(third)("/end_date"@) == document(nodes)("/end_date"@));
    assert(document(third)("/test_endpoint"@) == document(nodes)("/test_endpoint"@));
    assert(apple_view(document(third)) =~= (ResultView {
        ping_ms: number_at(third, "/base_rtt"@, Scale::Same),
        ..apple_view(document(nodes))
    }));
}

/// Two documents of Ookla's output that differ in one of the measured fields
/// give results that differ in, and only in, the value of that field.
pub proof fn ookla_values_change_one_by_one(nodes: Map<Seq<char>, NodeView>, node: NodeView)
    ensures
        ({
            let read = |nodes: Map<Seq<char>, NodeView>| ookla_view(document(nodes));
            let first = nodes.insert("/download/bandwidth"@, node);
            let second = nodes.insert("/upload/bandwidth"@, node);
            let third = nodes.insert("/ping/latency"@, node);
            &&& read(first) == (ResultView {
                download_mbps: number_at(first, "/download/bandwidth"@, Scale::BytesPerSecond),
                ..read(nodes)
            })
            &&& read(second) == (ResultView {
                upload_mbps: number_at(second, "/upload/bandwidth"@, Scale::BytesPerSecond),
                ..read(nodes)
            })
            &&& read(third) == (ResultView {
                ping_ms: number_at(third, "/ping/latency"@, Scale::Same),
                ..read(nodes)
            })
        }),
{
    reveal_strlit("/download/bandwidth");
    reveal_strlit("/upload/bandwidth");
    reveal_strlit("/ping/latency");
    reveal_strlit("/ping/jitter");
    reveal_strlit("/packetLoss");
    reveal_strlit("/download/bytes");
    reveal_strlit("/upload/bytes");
    reveal_strlit("/interface/name");
    reveal_strlit("/result/url");
    reveal_strlit("/timestamp");
    reveal_strlit("/server/id");
    reveal_strlit("/server/name");
    reveal_strlit("/server/location");
    reveal_strlit("/server/host");
    assert("/download/bandwidth"@.len() == 19);
    assert("/upload/bandwidth"@.len() == 17);
    assert("/ping/latency"@.len() == 13);
    assert("/ping/jitter"@.len() == 12);
    assert("/packetLoss"@.len() == 11);
    assert("/download/bytes"@.len() == 15);
    assert("/upload/bytes"@.len() == 13);
    assert("/interface/name"@.len() == 15);
    assert("/result/url"@.len() == 11);
    assert("/timestamp"@.len() == 10);
    assert("/server/id"@.len() == 10);
    assert("/server/name"@.len() == 12);
    assert("/server/location"@.len() == 16);
    assert("/server/host"@.len() == 12);
    assert("/ping/latency"@[1] != "/upload/bytes"@[1]);
    assert("/ping/jitter"@[1] != "/server/name"@[1]);
    assert("/ping/jitter"@[1] != "/server/host"@[1]);
    assert("/packetLoss"@[1] != "/result/url"@[1]);
    assert("/download/bytes"@[1] != "/interface/name"@[1]);
    assert("/timestamp"@[1] != "/server/id"@[1]);
    assert("/server/name"@[8] != "/server/host"@[8]);
    let first = nodes.insert("/download/bandwidth"@, node);
    assert(document(first)("/upload/bandwidth"@) == document(nodes)("/upload/bandwidth"@));
    assert(document(first)("/ping/latency"@) == document(nodes)("/ping/latency"@));
    assert(document(first)("/ping/jitter"@) == document(nodes)("/ping/jitter"@));
    assert(document(first)("/packetLoss"@) == document(nodes)("/packetLoss"@));
    assert(document(first)("/download/bytes"@) == document(nodes)("/download/bytes"@));
    assert(document(first)("/upload/bytes"@) == document(nodes)("/upload/bytes"@));
    assert(document(first)("/interface/name"@) == document(nodes)("/interface/name"@));
    assert(document(first)("/result/url"@) == document(nodes)("/result/url"@));
    assert(document(first)("/timestamp"@) == document(nodes)("/timestamp"@));
    assert(document(first)("/server/id"@) == document(nodes)("/server/id"@));
    assert(document(first)("/server/name"@) == document(nodes)("/server/name"@));
    assert(document(first)("/server/location"@) == document(nodes)("/server/location"@));
    assert(document(first)("/server/host"@) == document(nodes)("/server/host"@));
    assert(ookla_view(document(first)) =~= (ResultView {
        download_mbps: number_at(first, "/download/bandwidth"@, Scale::BytesPerSecond),
        ..ookla_view(document(nodes))
    }));
    let second = nodes.insert("/upload/bandwidth"@, node);
    assert(document(second)("/download/bandwidth"@) == document(nodes)("/download/bandwidth"@));
    assert(document(second)("/ping/latency"@) == document(nodes)("/ping/latency"@));
    assert(document(second)("/ping/jitter"@) == document(nodes)("/ping/jitter"@));
    assert(document(second)("/packetLoss"@) == document(nodes)("/packetLoss"@));
    assert(document(second)("/download/bytes"@) == document(nodes)("/download/bytes"@));
    assert(document(second)("/upload/bytes"@) == document(nodes)("/upload/bytes"@));
    assert(document(second)("/interface/name"@) == document(nodes)("/interface/name"@));
    assert(document(second)("/result/url"@) == document(nodes)("/result/url"@));
    assert(document(second)("/timestamp"@) == document(nodes)("/timestamp"@));
    assert(document(second)("/server/id"@) == document(nodes)("/server/id"@));
    assert(document(second)("/server/name"@) == document(nodes)("/server/name"@));
    assert(document(second)("/server/location"@) == document(nodes)("/server/location"@));
    assert(document(second)("/server/host"@) == document(nodes)("/server/host"@));
    assert(ookla_view(document(second)) =~= (ResultView {
        upload_mbps: number_at(second, "/upload/bandwidth"@, Scale::BytesPerSecond),
        ..ookla_view(document(nodes))
    }));
    let third = nodes.insert("/ping/latency"@, node);
    assert(document(third)("/download/bandwidth"@) == document(nodes)("/download/bandwidth"@));
    assert(document(third)("/upload/bandwidth"@) == document(nodes)("/upload/bandwidth"@));
    assert(document(third)("/ping/jitter"@) == document(nodes)("/ping/jitter"@));
    assert(document(third)("/packetLoss"@) == document(nodes)("/packetLoss"@));
    assert(document(third)("/download/bytes"@) == document(nodes)("/download/bytes"@));
    assert(document(third)("/upload/bytes"@) == document(nodes)("/upload/bytes"@));
    assert(document(third)("/interface/name"@) == document(nodes)("/interface/name"@));
    assert(document(third)("/result/url"@) == document(nodes)("/result/url"@));
    assert(document(third)("/timestamp"@) == document(nodes)("/timestamp"@));
    assert(document(third)("/server/id"@) == document(nodes)("/server/id"@));
    assert(document(third)("/server/name"@) == document(nodes)("/server/name"@));
    assert(document(third)("/server/location"@) == document(nodes)("/server/location"@));
    assert(document(third)("/server/host"@) == document(nodes)("/server/host"@));
    assert(ookla_view(document(third)) =~= (ResultView {
        ping_ms: number_at(third, "/ping/latency"@, Scale::Same),
        ..ookla_view(document(nodes))
    }));
}

/// Two documents of Netflix's output that differ in one of the measured fields
/// give results that differ in, and only in, the value of that field.
pub proof fn netflix_values_change_one_by_one(nodes: Map<Seq<char>, NodeView>, node: NodeView)
    ensures
        ({
            let read = |nodes: Map<Seq<char>, NodeView>| netflix_view(document(nodes));
            let first = nodes.insert("/downloadSpeed"@, node);
            let second = nodes.insert("/uploadSpeed"@, node);
            let third = nodes.insert("/latency"@, node);
            &&& read(first) == (ResultView {
                download_mbps: number_at(first, "/downloadSpeed"@, Scale::Same),
                ..read(nodes)
            })
            &&& read(second) == (ResultView {
                upload_mbps: number_at(second, "/uploadSpeed"@, Scale::Same),
                ..read(nodes)
            })
            &&& read(third) == (ResultView {
                ping_ms: number_at(third, "/latency"@, Scale::Same),
                ..read(nodes)
            })
        }),
{
    reveal_strlit("/downloadSpeed");
    reveal_strlit("/uploadSpeed");
    reveal_strlit("/latency");
    reveal_strlit("/bufferBloat");
    reveal_strlit("/userLocation");
    assert("/downloadSpeed"@.len() == 14);
    assert("/uploadSpeed"@.len() == 12);
    assert("/latency"@.len() == 8);
    assert("/bufferBloat"@.len() == 12);
    assert("/userLocation"@.len() == 13);
    assert("/uploadSpeed"@[1] != "/bufferBloat"@[1]);
    let first = nodes.insert("/downloadSpeed"@, node);
    assert(document(first)("/uploadSpeed"@) == document(nodes)("/uploadSpeed"@));
    assert(document(first)("/latency"@) == document(nodes)("/latency"@));
    assert(document(first)("/bufferBloat"@) == document(nodes)("/bufferBloat"@));
    assert(document(first)("/userLocation"@) == document(nodes)("/userLocation"@));
    assert(netflix_view(document(first)) =~= (ResultView {
        download_mbps: number_at(first, "/downloadSpeed"@, Scale::Same),
        ..netflix_view(document(nodes))
    }));
    let second = nodes.insert("/uploadSpeed"@, node);
    assert(document(second)("/downloadSpeed"@) == document(nodes)("/downloadSpeed"@));
    assert(document(second)("/latency"@) == document(nodes)("/latency"@));
    assert(document(second)("/bufferBloat"@) == document(nodes)("/bufferBloat"@));
    assert(document(second)("/userLocation"@) == document(nodes)("/userLocation"@));
    assert(netflix_view(document(second)) =~= (ResultView {
        upload_mbps: number_at(second, "/uploadSpeed"@, Scale::Same),
        ..netflix_view(document(nodes))
    }));
    let third = nodes.insert("/latency"@, node);
    assert(document(third)("/downloadSpeed"@) == document(nodes)("/downloadSpeed"@));
    assert(document(third)("/uploadSpeed"@) == document(nodes)("/uploadSpeed"@));
    assert(document(third)("/bufferBloat"@) == document(nodes)("/bufferBloat"@));
    assert(document(third)("/userLocation"@) == document(nodes)("/userLocation"@));
    assert(netflix_view(document(third)) =~= (ResultView {
        ping_ms: number_at(third, "/latency"@, Scale::Same),
        ..netflix_view(document(nodes))
    }));
}

/// Two documents of a custom program's output that differ in one of the measured fields
/// give results that differ in, and only in, the value of that field.
pub proof fn custom_values_change_one_by_one(nodes: Map<Seq<char>, NodeView>, node: NodeView)
    ensures
        ({
            let read = |nodes: Map<Seq<char>, NodeView>| custom_view(document(nodes));
            let first = nodes.insert("/download_mbps"@, node);
            let second = nodes.insert("/upload_mbps"@, node);
            let third = nodes.insert("/ping_ms"@, node);
            &&& read(first) == (ResultView {
                download_mbps: number_at(first, "/download_mbps"@, Scale::Same),
                ..read(nodes)
            })
            &&& read(second) == (ResultView {
                upload_mbps: number_at(second, "/upload_mbps"@, Scale::Same),
                ..read(nodes)
            })
            &&& read(third) == (ResultView {
                ping_ms: number_at(third, "/ping_ms"@, Scale::Same),
                ..read(nodes)
            })
        }),
{
    reveal_strlit("/download_mbps");
    reveal_strlit("/upload_mbps");
    reveal_strlit("/ping_ms");
    reveal_strlit("/loaded_latency_ms");
    reveal_strlit("/jitter_ms");
    reveal_strlit("/packet_loss_percent");
    reveal_strlit("/bytes_downloaded");
    reveal_strlit("/bytes_uploaded");
    reveal_strlit("/interface");
    reveal_strlit("/result_url");
    reveal_strlit("/timestamp");
    assert("/download_mbps"@.len() == 14);
    assert("/upload_mbps"@.len() == 12);
    assert("/ping_ms"@.len() == 8);
    assert("/loaded_latency_ms"@.len() == 18);
    assert("/jitter_ms"@.len() == 10);
    assert("/packet_loss_percent"@.len() == 20);
    assert("/bytes_downloaded"@.len() == 17);
    assert("/bytes_uploaded"@.len() == 15);
    assert("/interface"@.len() == 10);
    assert("/result_url"@.len() == 11);
    assert("/timestamp"@.len() == 10);
    assert("/jitter_ms"@[1] != "/interface"@[1]);
    assert("/jitter_ms"@[1] != "/timestamp"@[1]);
    assert("/interface"@[1] != "/timestamp"@[1]);
    let first = nodes.insert("/download_mbps"@, node);
    assert(document(first)("/upload_mbps"@) == document(nodes)("/upload_mbps"@));
    assert(document(first)("/ping_ms"@) == document(nodes)("/ping_ms"@));
    assert(document(first)("/loaded_latency_ms"@) == document(nodes)("/loaded_latency_ms"@));
    assert(document(first)("/jitter_ms"@) == document(nodes)("/jitter_ms"@));
    assert(document(first)("/packet_loss_percent"@) == document(nodes)("/packet_loss_percent"@));
    assert(document(first)("/bytes_downloaded"@) == document(nodes)("/bytes_downloaded"@));
    assert(document(first)("/bytes_uploaded"@) == document(nodes)("/bytes_uploaded"@));
    assert(document(first)("/interface"@) == document(nodes)("/interface"@));
    assert(document(first)("/result_url"@) == document(nodes)("/result_url"@));
    assert(document(first)("/timestamp"@) == document(nodes)("/timestamp"@));
    assert(custom_view(document(first)) =~= (ResultView {
        download_mbps: number_at(first, "/download_mbps"@, Scale::Same),
        ..custom_view(document(nodes))
    }));
    let second = nodes.insert("/upload_mbps"@, node);
    assert(document(second)("/download_mbps"@) == document(nodes)("/download_mbps"@));
    assert(document(second)("/ping_ms"@) == document(nodes)("/ping_ms"@));
    assert(document(second)("/loaded_latency_ms"@) == document(nodes)("/loaded_latency_ms"@));
    assert(document(second)("/jitter_ms"@) == document(nodes)("/jitter_ms"@));
    assert(document(second)("/packet_loss_percent"@) == document(nodes)("/packet_loss_percent"@));
    assert(document(second)("/bytes_downloaded"@) == document(nodes)("/bytes_downloaded"@));
    assert(document(second)("/bytes_uploaded"@) == document(nodes)("/bytes_uploaded"@));
    assert(document(second)("/interface"@) == document(nodes)("/interface"@));
    assert(document(second)("/result_url"@) == document(nodes)("/result_url"@));
    assert(document(second)("/timestamp"@) == document(nodes)("/timestamp"@));
    assert(custom_view(document(second)) =~= (ResultView {
        upload_mbps: number_at(second, "/upload_mbps"@, Scale::Same),
        ..custom_view(document(nodes))
    }));
    let third = nodes.insert("/ping_ms"@, node);
    assert(document(third)("/download_mbps"@) == document(nodes)("/download_mbps"@));
    assert(document(third)("/upload_mbps"@) == document(nodes)("/upload_mbps"@));
    assert(document(third)("/loaded_latency_ms"@) == document(nodes)("/loaded_latency_ms"@));
    assert(document(third)("/jitter_ms"@) == document(nodes)("/jitter_ms"@));
    assert(document(third)("/packet_loss_percent"@) == document(nodes)("/packet_loss_percent"@));
    assert(document(third)("/bytes_downloaded"@) == document(nodes)("/bytes_downloaded"@));
    assert(document(third)("/bytes_uploaded"@) == document(nodes)("/bytes_uploaded"@));
    assert(document(third)("/interface"@) == document(nodes)("/interface"@));
    assert(document(third)("/result_url"@) == document(nodes)("/result_url"@));
    assert(document(third)("/timestamp"@) == document(nodes)("/timestamp"@));
    assert(custom_view(document(third)) =~= (ResultView {
        ping_ms: number_at(third, "/ping_ms"@, Scale::Same),
        ..custom_view(document(nodes))
    }));
}

/// A field that is absent or null counts as absent.
pub open spec fn absent_at(nodes: Map<Seq<char>, NodeView>, pointer: Seq<char>) -> bool {
    !nodes.contains_key(pointer) || nodes[pointer] is Null
}

/// The server of a custom program's output is read by the names of its fields,
/// or by their places: id, name, location, host. Each is taken from its own
/// field, and is unknown where that field is absent or null.
pub proof fn a_custom_server_is_read_by_name_or_place(nodes: Map<Seq<char>, NodeView>)
    ensures
        ({
            let whole = |pointer: Seq<char>|
                absent_at(nodes, pointer) || count_at(nodes, pointer) is Some;
            let worded = |pointer: Seq<char>|
                absent_at(nodes, pointer) || words_at(nodes, pointer) is Some;
            let read = server_view(document(nodes));
            let at = "/server"@;
            &&& !nodes.contains_key(at) ==> read == Ok::<Option<ServerView>, Seq<char>>(None)
            &&& nodes.contains_key(at) && nodes[at] is Object ==> {
                &&& read is Ok <==> whole("/server/id"@) && worded("/server/name"@) && worded(
                    "/server/location"@,
                ) && worded("/server/host"@)
                &&& read matches Ok(server) ==> server == Some(
                    ServerView {
                        id: count_at(nodes, "/server/id"@),
                        name: words_at(nodes, "/server/name"@),
                        location: words_at(nodes, "/server/location"@),
                        host: words_at(nodes, "/server/host"@),
                    },
                )
            }
            &&& nodes.contains_key(at) && nodes[at] is Array ==> {
                &&& read is Ok <==> nodes[at]->Array_0 == 4 && whole("/server/0"@) && worded(
                    "/server/1"@,
                ) && worded("/server/2"@) && worded("/server/3"@)
                &&& read matches Ok(server) ==> server == Some(
                    ServerView {
                        id: count_at(nodes, "/server/0"@),
                        name: words_at(nodes, "/server/1"@),
                        location: words_at(nodes, "/server/2"@),
                        host: words_at(nodes, "/server/3"@),
                    },
                )
            }
            &&& nodes.contains_key(at) && !(nodes[at] is Object) && !(nodes[at] is Array) ==> read
                is Err
        }),
{
}

/// A custom result stands or falls with its server: where the server cannot be
/// read there is no result, and otherwise the result carries that server and
/// is the one that it would be without it.
pub proof fn a_custom_result_carries_its_server(nodes: Map<Seq<char>, NodeView>)
    ensures
        ({
            let measured = number_at(nodes, "/download_mbps"@, Scale::Same) is Some || number_at(
                nodes,
                "/upload_mbps"@,
                Scale::Same,
            ) is Some || number_at(nodes, "/ping_ms"@, Scale::Same) is Some;
            let read = server_view(document(nodes));
            &&& meaning(SpeedtestProvider::Custom, Ok(nodes)) is Ok <==> read is Ok && measured
            &&& meaning(SpeedtestProvider::Custom, Ok(nodes)) matches Ok(r) ==> r.server
                == read->Ok_0 && r == (ResultView { server: r.server, ..custom_view(document(nodes))
            })
            &&& read matches Err(e) ==> meaning(SpeedtestProvider::Custom, Ok(nodes)) == Err::<
                ResultView,
                Seq<char>,
            >(e)
        }),
{
}

/// What cannot be parsed has no meaning, and the parser's own words are kept.
pub proof fn an_output_that_cannot_be_parsed_means_nothing(
    provider: SpeedtestProvider,
    error: Seq<char>,
)
    ensures
        meaning(provider, Err(error)) == Err::<ResultView, Seq<char>>(error),
        parse_view(provider, Err(error)) matches Err(failure) && failure.cause == error
            && failure.context is Some,
{
}

/// Each provider has a program of its own. Apple's gets as many seconds as the
/// time limit has, and at least one; Ookla's gets the server that was asked
/// for and no other; a custom program gets the arguments that were given.
pub proof fn each_provider_runs_its_own_program(options: SpeedtestOptions)
    ensures
        options.provider is Apple ==> (command_of(options) matches Ok(c) && c.0
            == "/usr/bin/networkQuality"@ && c.1.len() == 3 && c.1[0] == "-c"@ && c.1[1] == "-M"@
            && (options.timeout.nanos >= time::NANOS_PER_SEC ==> c.1[2] == text::decimal(
            (options.timeout.nanos / 1_000_000_000) as nat,
        )) && (options.timeout.nanos < time::NANOS_PER_SEC ==> c.1[2] == text::decimal(1))),
        options.provider is Ookla ==> (command_of(options) matches Ok(c) && c.0 == "speedtest"@
            && c.1[0] == "--format=json"@ && c.1[1] == "--accept-license"@ && c.1[2]
            == "--accept-gdpr"@ && (options.server_id is None ==> c.1.len() == 3) && (
        options.server_id matches Some(id) ==> c.1.len() == 4 && c.1[3] == "--server-id="@
            + text::decimal(id as nat))),
        options.provider is Netflix ==> (command_of(options) matches Ok(c) && c.0 == "fast"@
            && c.1.len() == 2 && c.1[0] == "--upload"@ && c.1[1] == "--json"@),
        options.provider is Custom ==> (command_of(options) is Ok <==> options.custom_command
            is Some),
        options.provider is Custom && options.custom_command is Some ==> command_of(options) == Ok::<
            (Seq<char>, Seq<Seq<char>>),
            Seq<char>,
        >((options.custom_command->0@, text::texts(options.custom_args@))),
{
}

/// What is asked for is refused exactly where the time limit is zero, where a
/// server is asked for of a provider that has none to choose, or where a
/// custom program is asked for and none is named.
pub proof fn options_are_refused_for_a_reason(options: SpeedtestOptions)
    ensures
        objection(options) is Some <==> options.timeout.nanos == 0 || (options.server_id is Some
            && !(options.provider is Ookla)) || (options.provider is Custom
            && options.custom_command is None),
        options.timeout.nanos == 0 ==> objection(options) == Some(
            "speed-test timeout must be greater than zero"@,
        ),
        options.timeout.nanos > 0 && options.server_id is Some && !(options.provider is Ookla)
            ==> objection(options) == Some(
            "--server-id is only supported by the Ookla provider"@,
        ),
{
}

/// A run may take as long as was asked for; Apple's program, which measures
/// for all of that time, gets five seconds more to write its result.
pub proof fn a_run_gets_its_time(provider: SpeedtestProvider, timeout: Duration)
    requires
        timeout.nanos + 5_000_000_000 <= time::MAX_DURATION_NANOS,
    ensures
        provider is Apple ==> limit_of(provider, timeout) == timeout.nanos + 5_000_000_000,
        !(provider is Apple) ==> limit_of(provider, timeout) == timeout.nanos,
        default_secs(provider) == if provider is Apple {
            30
        } else {
            300u64
        },
{
}

/// Every provider has a name of its own.
pub proof fn provider_names_are_distinct(a: SpeedtestProvider, b: SpeedtestProvider)
    ensures
        a != b ==> provider_name(a) != provider_name(b),
{
    reveal_strlit("apple");
    reveal_strlit("ookla");
    reveal_strlit("netflix");
    reveal_strlit("custom");
    assert("apple"@.len() == 5);
    assert("ookla"@.len() == 5);
    assert("netflix"@.len() == 7);
    assert("custom"@.len() == 6);
    assert("apple"@[0] != "ookla"@[0]);
}

/// A process that ended badly has failed, with its own complaint where it made
/// one and otherwise with its status; one that ended well has said what its
/// output means.
pub proof fn a_failed_process_is_quoted(
    provider: SpeedtestProvider,
    status: Seq<char>,
    stdout: Seq<u8>,
    stderr: Seq<u8>,
)
    ensures
        ({
            let complaint = text::trim_of(text::lossy_text(stderr));
            let bad = exit_view(provider, false, status, stdout, stderr);
            let good = exit_view(provider, true, status, stdout, stderr);
            &&& complaint.len() > 0 ==> bad == Err::<ResultView, FailureView>(
                FailureView {
                    context: None,
                    cause: provider_name(provider) + " speed test failed: "@ + complaint,
                },
            )
            &&& complaint.len() == 0 ==> bad == Err::<ResultView, FailureView>(
                FailureView {
                    context: None,
                    cause: provider_name(provider) + " speed test exited with "@ + status,
                },
            )
            &&& vstd::utf8::valid_utf8(stdout) ==> good == parse_view(
                provider,
                json::parsed(vstd::utf8::decode_utf8(stdout)),
            )
            &&& !vstd::utf8::valid_utf8(stdout) ==> good == Err::<ResultView, FailureView>(
                FailureView {
                    context: Some(provider_name(provider) + " returned non-UTF-8 output"@),
                    cause: text::utf8_failure(stdout),
                },
            )
        }),
{
}

/// How a run ends: by the end of its process, with what that has left; by the
/// end of its time; by the user; or because the program could not be run.
/// Nothing but the process itself can end a run well.
pub proof fn only_a_finished_process_ends_a_run_well(
    session: SessionView,
    input: RunInput,
    now: Instant,
)
    requires
        session.outcome is None,
    ensures
        ({
            let (next, event) = session.advanced(input, now);
            let name = provider_name(session.provider);
            &&& input is Tick <==> next.outcome is None
            &&& next.outcome matches Some(Ok(result)) ==> {
                &&& input matches RunInput::Exited { success, status, stdout, stderr } && success
                &&& result.duration_ms == millis_since(session.started, now)
            }
            &&& input matches RunInput::Exited { success, status, stdout, stderr } ==> (exit_view(
                session.provider,
                success,
                status@,
                stdout@,
                stderr@,
            ) is Ok <==> next.outcome->0 is Ok)
            &&& input is DeadlinePassed ==> next.outcome == Some(
                Err::<ResultView, FailureView>(
                    FailureView {
                        context: None,
                        cause: name + " speed test timed out after "@ + text::decimal(
                            (session.timeout.nanos / 1_000_000_000) as nat,
                        ) + " seconds"@,
                    },
                ),
            )
            &&& input matches RunInput::Interrupted(Ok(_)) ==> next.outcome == Some(
                Err::<ResultView, FailureView>(
                    FailureView { context: None, cause: name + " speed test cancelled"@ },
                ),
            )
            &&& input matches RunInput::SpawnFailed(e) ==> (next.outcome matches Some(
                Err(failure),
            ) && failure.cause == e@ && failure.context == Some(
                hint(session.provider, session.program),
            ))
            &&& input matches RunInput::WaitFailed(e) ==> (next.outcome matches Some(
                Err(failure),
            ) && failure.cause == e@ && failure.context == Some(
                hint(session.provider, session.program),
            ))
            &&& input matches RunInput::Interrupted(Err(e)) ==> next.outcome == Some(
                Err::<ResultView, FailureView>(
                    FailureView { context: Some("listen for Ctrl-C"@), cause: e@ },
                ),
            )
            &&& input matches RunInput::Exited { success, status, stdout, stderr } ==> (
            next.outcome->0 matches Err(failure) ==> exit_view(
                session.provider,
                success,
                status@,
                stdout@,
                stderr@,
            ) == Err::<ResultView, FailureView>(failure))
            &&& input matches RunInput::Exited { success, status, stdout, stderr } ==> (
            next.outcome->0 matches Ok(result) ==> exit_view(
                session.provider,
                success,
                status@,
                stdout@,
                stderr@,
            ) == Ok::<ResultView, FailureView>(
                ResultView {
                    duration_ms: (exit_view(
                        session.provider,
                        success,
                        status@,
                        stdout@,
                        stderr@,
                    )->Ok_0).duration_ms,
                    ..result
                },
            ))
            &&& next == (SessionView { outcome: next.outcome, ..session })
            &&& event is Some
        }),
{
}

/// Every report of a run carries the version of its form and, where it tells
/// of a time, the time since the start. The end of a run is reported as it is
/// kept: the result itself, or the failure on one line.
pub proof fn every_report_tells_what_happened(session: SessionView, input: RunInput, now: Instant)
    requires
        session.outcome is None,
    ensures
        ({
            let (next, event) = session.advanced(input, now);
            let elapsed = millis_since(session.started, now);
            &&& input matches RunInput::Tick(live) ==> event == Some(
                SpeedtestEventView::Progress {
                    schema_version: 1,
                    provider: session.provider,
                    elapsed_ms: elapsed,
                    live,
                },
            )
            &&& next.outcome matches Some(Ok(result)) ==> event == Some(
                SpeedtestEventView::Complete { schema_version: 1, result },
            )
            &&& next.outcome matches Some(Err(failure)) ==> event == Some(
                SpeedtestEventView::Failed {
                    schema_version: 1,
                    provider: session.provider,
                    elapsed_ms: elapsed,
                    error: match failure.context {
                        Some(context) => context + ": "@ + failure.cause,
                        None => failure.cause,
                    },
                },
            )
        }),
{
}

/// The time of a run counts in whole milliseconds.
pub proof fn a_run_is_timed_in_milliseconds(started: Instant, millis: u64, rest: u128)
    requires
        rest < 1_000_000,
        started.nanos + millis * 1_000_000 + rest <= u128::MAX,
    ensures
        millis_since(
            started,
            Instant { nanos: (started.nanos + millis * 1_000_000 + rest) as u128 },
        ) == millis,
{
    vstd::arithmetic::div_mod::lemma_fundamental_div_mod_converse(
        millis * 1_000_000 + rest,
        1_000_000,
        millis as int,
        rest as int,
    );
}

/// A program that cannot be run is named, with the way to install it where it
/// is not part of the system.
pub proof fn a_missing_program_is_named(program: Seq<char>)
    ensures
        hint(SpeedtestProvider::Apple, program) == "could not run `"@ + program + "`"@,
        hint(SpeedtestProvider::Custom, program) == "could not run `"@ + program + "`"@,
        hint(SpeedtestProvider::Ookla, program)
            == "could not run `speedtest`; install the official Ookla Speedtest CLI"@,
        hint(SpeedtestProvider::Netflix, program)
            == "could not run `fast`; install it with `npm install --global fast-cli`"@,
{
}

/// A run begins with its start, whatever was asked for; where that is refused
/// it is over at once, and the refusal is its failure.
pub proof fn a_refused_run_is_over_at_once(options: SpeedtestOptions, now: Instant)
    ensures
        ({
            let (session, events) = SessionView::begun(options, now);
            &&& events[0] == (SpeedtestEventView::Started {
                schema_version: 1,
                provider: options.provider,
            })
            &&& objection(options) is None ==> events.len() == 1 && session.outcome is None
            &&& objection(options) matches Some(reason) ==> events.len() == 2 && session.outcome
                == Some(
                Err::<ResultView, FailureView>(FailureView { context: None, cause: reason }),
            ) && events[1] == (SpeedtestEventView::Failed {
                schema_version: 1,
                provider: options.provider,
                elapsed_ms: 0,
                error: reason,
            })
            &&& session.provider == options.provider
            &&& session.timeout == options.timeout
            &&& session.started == now
        }),
{
}

/// The processes of a run are killed exactly where it ends before they do:
/// when its time is over, when the user stops it, or when they can no longer
/// be waited for.
pub proof fn only_processes_that_may_still_run_are_killed(input: RunInput)
    ensures
        fate_after(input) is Killed <==> input is DeadlinePassed || input is Interrupted || input
            is WaitFailed,
        input is Exited || input is Tick || input is SpawnFailed ==> fate_after(input) is Spared,
{
}

/// Only Netflix's program is told of a browser, and only of one that is there
/// and that nobody has chosen otherwise.
pub proof fn a_browser_is_named_where_it_is_needed(
    provider: SpeedtestProvider,
    configured: bool,
    installed: bool,
)
    ensures
        told_the_browser(provider, configured, installed) ==> provider is Netflix && installed
            && !configured,
        told_the_browser(SpeedtestProvider::Netflix, false, true),
{
}

/// What flowed is the difference of two counters over the time between them,
/// inbound and outbound each for itself. A counter that went back, as after a
/// restart of the interface, and a sample that is missing give nothing.
pub proof fn traffic_is_the_difference_of_two_samples(
    p: InterfaceCounters,
    c: InterfaceCounters,
)
    ensures
        c.inbound_bytes >= p.inbound_bytes ==> (rates(Some(p), Some(c)).0 matches Some(rate)
            && rate.bytes + p.inbound_bytes == c.inbound_bytes && rate.nanos
            == time::nanos_between(c.sampled_at, p.sampled_at)),
        c.outbound_bytes >= p.outbound_bytes ==> (rates(Some(p), Some(c)).1 matches Some(rate)
            && rate.bytes + p.outbound_bytes == c.outbound_bytes && rate.nanos
            == time::nanos_between(c.sampled_at, p.sampled_at)),
        c.inbound_bytes < p.inbound_bytes ==> rates(Some(p), Some(c)).0 is None,
        c.outbound_bytes < p.outbound_bytes ==> rates(Some(p), Some(c)).1 is None,
        rates(None, Some(c)) == (None::<Rate>, None::<Rate>),
        rates(Some(p), None) == (None::<Rate>, None::<Rate>),
{
}

/// There is a ping at once, and then one for every second that has passed.
pub proof fn a_ping_is_due_every_second(last: Instant, now: Instant)
    ensures
        time_to_ping(None, now),
        time_to_ping(Some(last), now) <==> now.nanos >= last.nanos + 1_000_000_000,
{
}

/// A line of the routing table that names an interface gives its name, with
/// the space around it taken away.
pub proof fn a_route_names_its_interface(
    before: Seq<char>,
    gap: Seq<char>,
    name: Seq<char>,
    behind: Seq<char>,
)
    requires
        text::all_space(before),
        text::all_space(gap),
        text::all_space(behind),
        name.len() > 0,
        !text::is_space(name[0]),
        !text::is_space(name.last()),
    ensures
        interface_of_line(before + "interface:"@ + gap + name + behind) == Some(name),
{
    reveal_strlit("interface:");
    let key = "interface:"@;
    let body = key + gap + name;
    let line = before + key + gap + name + behind;
    assert(line =~= before + body + behind);
    assert(body[0] == 'i');
    assert(body.last() == name.last());
    text::trimming_takes_only_the_space_around(before, body, behind);
    assert(body.take(key.len() as int) =~= key);
    let rest = body.skip(key.len() as int);
    assert(rest =~= gap + name + Seq::<char>::empty());
    text::trimming_takes_only_the_space_around(gap, name, Seq::<char>::empty());
}

/// The first line that names an interface, or that gives the counters of one,
/// is the one that counts.
pub proof fn the_first_line_counts(lines: Seq<Seq<char>>, interface: Seq<char>, i: int)
    requires
        0 <= i <= lines.len(),
    ensures
        (forall|k: int| 0 <= k < i ==> interface_of_line(#[trigger] lines[k]) is None) ==> (i
            < lines.len() && interface_of_line(lines[i]) is Some ==> interface_in(lines)
            == interface_of_line(lines[i])) && (i == lines.len() ==> interface_in(lines) is None),
        (forall|k: int| 0 <= k < i ==> counters_of_line(#[trigger] lines[k], interface) is None)
            ==> (i < lines.len() && counters_of_line(lines[i], interface) is Some ==> counters_in(
            lines,
            interface,
        ) == counters_of_line(lines[i], interface)) && (i == lines.len() ==> counters_in(
            lines,
            interface,
        ) is None),
    decreases i,
{
    if i > 0 {
        let rest = lines.skip(1);
        the_first_line_counts(rest, interface, i - 1);
        assert(i < lines.len() ==> rest[i - 1] == lines[i]);
        if forall|k: int| 0 <= k < i ==> interface_of_line(#[trigger] lines[k]) is None {
            assert(interface_of_line(lines[0]) is None);
            assert forall|k: int| 0 <= k < i - 1 implies interface_of_line(
                #[trigger] rest[k],
            ) is None by {
                assert(rest[k] == lines[k + 1]);
            }
        }
        if forall|k: int| 0 <= k < i ==> counters_of_line(#[trigger] lines[k], interface) is None {
            assert(counters_of_line(lines[0], interface) is None);
            assert forall|k: int| 0 <= k < i - 1 implies counters_of_line(
                #[trigger] rest[k],
                interface,
            ) is None by {
                assert(rest[k] == lines[k + 1]);
            }
        }
    }
}

/// A line of the interface table that is made of some words gives the seventh
/// as the inbound and the tenth as the outbound counter, if it is of the
/// interface that is asked for.
pub proof fn counters_stand_in_their_columns(
    words: Seq<Seq<char>>,
    interface: Seq<char>,
    inbound: u64,
    outbound: u64,
)
    requires
        words.len() >= 10,
        forall|i: int|
            0 <= i < words.len() ==> (#[trigger] words[i]).len() > 0 && text::no_space(words[i]),
        words[6] == text::decimal(inbound as nat),
        words[9] == text::decimal(outbound as nat),
    ensures
        words[0] == interface ==> counters_of_line(text::spaced(words), interface) == Some(
            (inbound, outbound),
        ),
        words[0] != interface ==> counters_of_line(text::spaced(words), interface) is None,
{
    text::words_are_read_back(words);
    text::a_written_number_is_read_back(inbound);
    text::a_written_number_is_read_back(outbound);
}

/// The time of a ping is what stands between the first `time=` and the unit
/// behind it.
pub proof fn a_ping_tells_its_time(output: Seq<char>)
    ensures
        ping_in(output) is Some ==> exists|i: int, j: int|
            0 <= i && i + 5 <= j && j + 3 <= output.len() && #[trigger] output.subrange(i, i + 5)
                == "time="@ && #[trigger] output.subrange(j, j + 3) == " ms"@ && ping_in(output)
                == Some(text::trim_of(output.subrange(i + 5, j))),
        text::find_in(output, "time="@) is None ==> ping_in(output) is None,
{
    reveal_strlit("time=");
    reveal_strlit(" ms");
    assert("time="@.len() == 5);
    assert(" ms"@.len() == 3);
    if let Some(i) = text::find_in(output, "time="@) {
        text::the_first_place_is_found(output, "time="@, 0);
        text::the_first_place_is_found(output, " ms"@, i + 5);
        if let Some(j) = text::find_from(output, " ms"@, i + 5) {
            assert(output.subrange(i as int, i as int + 5) == "time="@);
            assert(output.subrange(j as int, j as int + 3) == " ms"@);
        }
    }
}

/// A field of the wrong kind is named by what it is and by what it should be.
pub proof fn a_field_of_the_wrong_kind_is_named(
    s: Seq<char>,
    shown: Seq<char>,
    n: nat,
    double: Option<u64>,
    integer: Option<u64>,
    expected: Seq<char>,
)
    ensures
        wrong_kind(NodeView::Null, expected) == "invalid type: "@ + "null"@ + ", expected "@
            + expected,
        wrong_kind(NodeView::Bool(true), expected) == "invalid type: "@ + "boolean `true`"@
            + ", expected "@ + expected,
        wrong_kind(NodeView::Bool(false), expected) == "invalid type: "@ + "boolean `false`"@
            + ", expected "@ + expected,
        wrong_kind(NodeView::Text(s), expected) == "invalid type: "@ + ("string "@
            + text::debug_text(s)) + ", expected "@ + expected,
        wrong_kind(NodeView::Array(n), expected) == "invalid type: "@ + "sequence"@ + ", expected "@
            + expected,
        wrong_kind(NodeView::Object, expected) == "invalid type: "@ + "map"@ + ", expected "@
            + expected,
        wrong_kind(NodeView::Number { double, integer, whole: true, shown }, expected)
            == "invalid type: "@ + ("integer `"@ + shown + "`"@) + ", expected "@ + expected,
        wrong_kind(NodeView::Number { double, integer, whole: false, shown }, expected)
            == "invalid type: "@ + ("floating point `"@ + shown + "`"@) + ", expected "@ + expected,
{
}

/// An unsigned integer is taken as it is; a negative one is of the right kind
/// but no such number, and a fraction is of the wrong kind. A text is taken
/// only where one is expected.
pub proof fn a_field_is_taken_as_what_it_is(
    n: u64,
    s: Seq<char>,
    shown: Seq<char>,
    double: Option<u64>,
    whole: bool,
)
    ensures
        ({
            let number = |integer: Option<u64>, whole: bool|
                Some(NodeView::Number { double, integer, whole, shown });
            &&& optional_integer(number(Some(n), whole)) == Ok::<_, Seq<char>>(Some(n))
            &&& optional_integer(number(None, true)) == Err::<Option<u64>, _>(
                "invalid value: integer `"@ + shown + "`, expected u64"@,
            )
            &&& optional_integer(number(None, false)) == Err::<Option<u64>, _>(
                "invalid type: "@ + ("floating point `"@ + shown + "`"@) + ", expected "@ + "u64"@,
            )
            &&& optional_integer(Some(NodeView::Text(s))) == Err::<Option<u64>, _>(
                "invalid type: "@ + ("string "@ + text::debug_text(s)) + ", expected "@ + "u64"@,
            )
            &&& optional_integer(None) == Ok::<Option<u64>, Seq<char>>(None)
            &&& optional_integer(Some(NodeView::Null)) == Ok::<Option<u64>, Seq<char>>(None)
            &&& optional_string(Some(NodeView::Text(s))) == Ok::<_, Seq<char>>(Some(s))
            &&& optional_string(number(Some(n), true)) == Err::<Option<Seq<char>>, _>(
                "invalid type: "@ + ("integer `"@ + shown + "`"@) + ", expected "@ + "a string"@,
            )
            &&& optional_string(Some(NodeView::Bool(true))) == Err::<Option<Seq<char>>, _>(
                "invalid type: "@ + "boolean `true`"@ + ", expected "@ + "a string"@,
            )
            &&& optional_string(None) == Ok::<Option<Seq<char>>, Seq<char>>(None)
            &&& optional_string(Some(NodeView::Null)) == Ok::<Option<Seq<char>>, Seq<char>>(None)
        }),
{
}

/// Of several fields of the wrong kind the one that is read first is named;
/// an array is of the wrong length where it does not hold four.
pub proof fn the_first_wrong_field_is_named(
    a: Option<Seq<char>>,
    b: Option<Seq<char>>,
    c: Option<Seq<char>>,
    d: Option<Seq<char>>,
    n: nat,
)
    ensures
        a is Some ==> first_error(a, b, c, d) == a,
        a is None && b is Some ==> first_error(a, b, c, d) == b,
        a is None && b is None && c is Some ==> first_error(a, b, c, d) == c,
        a is None && b is None && c is None ==> first_error(a, b, c, d) == d,
        n < 4 ==> wrong_length(n) == "invalid length "@ + text::decimal(n)
            + ", expected struct SpeedtestServer with 4 elements"@,
        n >= 4 ==> wrong_length(n) == "invalid length "@ + text::decimal(n)
            + ", expected fewer elements in array"@,
{
}

/// Where one field of a custom server is wrong, the error is that of the
/// field; a map is read in the order of host, id, location, name, and an array
/// in the order of its places.
pub proof fn a_wrong_server_field_is_reported(nodes: Map<Seq<char>, NodeView>)
    requires
        nodes.contains_key("/server"@),
    ensures
        ({
            let read = server_view(document(nodes));
            let host = optional_string(document(nodes)("/server/host"@));
            let id = optional_integer(document(nodes)("/server/id"@));
            let zero = optional_integer(document(nodes)("/server/0"@));
            let one = optional_string(document(nodes)("/server/1"@));
            &&& nodes["/server"@] is Object ==> (host matches Err(e) ==> read == Err::<
                Option<ServerView>,
                Seq<char>,
            >(e))
            &&& nodes["/server"@] is Object && host is Ok ==> (id matches Err(e) ==> read == Err::<
                Option<ServerView>,
                Seq<char>,
            >(e))
            &&& nodes["/server"@] is Array ==> (zero matches Err(e) ==> read == Err::<
                Option<ServerView>,
                Seq<char>,
            >(e))
            &&& nodes["/server"@] is Array && zero is Ok ==> (one matches Err(e) ==> read == Err::<
                Option<ServerView>,
                Seq<char>,
            >(e))
        }),
{
}

/// A result counts exactly where it has a download, an upload or a ping, and
/// it then stays as it is; otherwise the error names the provider.
pub proof fn a_result_needs_one_main_value(r: ResultView)
    ensures
        r.download_mbps is Some ==> required(r) == Ok::<_, Seq<char>>(r),
        r.upload_mbps is Some ==> required(r) == Ok::<_, Seq<char>>(r),
        r.ping_ms is Some ==> required(r) == Ok::<_, Seq<char>>(r),
        r.download_mbps is None && r.upload_mbps is None && r.ping_ms is None ==> required(r)
            == Err::<ResultView, _>(
            provider_name(r.provider)
                + " output must contain download, upload, or ping metrics"@,
        ),
{
}

/// A result that nothing has filled yet has no value at all, and belongs to
/// its provider.
pub proof fn an_empty_result_tells_nothing(provider: SpeedtestProvider)
    ensures
        required(empty_view(provider)) is Err,
        empty_view(provider).provider == provider,
        empty_view(provider).schema_version == 1,
        empty_view(provider).loaded_latency_ms is None && empty_view(provider).jitter_ms is None
            && empty_view(provider).packet_loss_percent is None,
        empty_view(provider).responsiveness_rpm is None && empty_view(provider).bytes_downloaded
            is None && empty_view(provider).bytes_uploaded is None,
        empty_view(provider).interface is None && empty_view(provider).server is None
            && empty_view(provider).result_url is None && empty_view(provider).timestamp is None,
        empty_view(provider).duration_ms == 0,
{
}

/// Only a real process has a group to kill, and the signal goes to the whole
/// group of that very process: never to a single process, and never to all.
pub proof fn only_the_group_of_the_process_is_killed(pid: i32)
    ensures
        group_of(pid) is Some <==> pid > 0,
        group_of(pid) matches Some(target) ==> target < 0 && target + pid == 0,
{
}

/// A ping that is answered is shown; one that is not leaves the last one in
/// place.
pub proof fn an_unanswered_ping_changes_nothing(shown: Option<u64>, ping: u64)
    ensures
        ping_after(shown, Some(ping)) == Some(ping),
        ping_after(shown, None) == shown,
{
}

} // verus!
