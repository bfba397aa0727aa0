//! The logging endpoints that write to DigitalOcean Spaces: create, read,
//! list, update and delete, each for one service and version.

use vstd::prelude::*;
use vstd::string::*;

use crate::apis::configuration::{Configuration, ConfigurationView};
use crate::apis::encoding::{
    decimal, decimal_string, form_pair, form_urlencoded, is_encoded_char, lemma_decimal_is_safe,
    lemma_urlencoded_is_safe, push_decimal, push_urlencoded, urlencoded,
};
use crate::apis::exchange::{Method, Request, RequestView, Response, TransportError};
use crate::apis::executor::{execute, is_ready, performs, request_for};
use crate::apis::{ApiError, ErrorEntity};

verus! {

/// What [`create_log_digocean`] is called with.
#[derive(Clone, Debug)]
pub struct CreateLogDigoceanParams {
    /// Alphanumeric string identifying the service.
    pub service_id: String,
    /// Integer identifying a service version.
    pub version_id: i32,
    /// The name for the real-time logging configuration.
    pub name: Option<String>,
    /// Where in the VCL the logging call is placed.
    pub placement: Option<String>,
    /// The name of an existing condition in the configured endpoint.
    pub response_condition: Option<String>,
    /// A log format string.
    pub format: Option<String>,
    /// The version of the custom logging format, 1 or 2.
    pub format_version: Option<i32>,
    /// How the message should be formatted.
    pub message_type: Option<String>,
    /// A timestamp format.
    pub timestamp_format: Option<String>,
    /// The codec used for compressing the logs: `zstd`, `snappy` or `gzip`.
    pub compression_codec: Option<String>,
    /// How frequently log files are finalized, in seconds.
    pub period: Option<i32>,
    /// The level of gzip encoding when sending logs.
    pub gzip_level: Option<i32>,
    /// The name of the DigitalOcean Space.
    pub bucket_name: Option<String>,
    /// The access key of the DigitalOcean Spaces account.
    pub access_key: Option<String>,
    /// The secret key of the DigitalOcean Spaces account.
    pub secret_key: Option<String>,
    /// The domain of the DigitalOcean Spaces endpoint.
    pub domain: Option<String>,
    /// The path to upload logs to.
    pub path: Option<String>,
    /// A PGP public key to encrypt the log files with.
    pub public_key: Option<String>,
}

/// What [`delete_log_digocean`] is called with.
#[derive(Clone, Debug)]
pub struct DeleteLogDigoceanParams {
    /// Alphanumeric string identifying the service.
    pub service_id: String,
    /// Integer identifying a service version.
    pub version_id: i32,
    /// The name for the real-time logging configuration.
    pub logging_digitalocean_name: String,
}

/// What [`get_log_digocean`] is called with.
#[derive(Clone, Debug)]
pub struct GetLogDigoceanParams {
    /// Alphanumeric string identifying the service.
    pub service_id: String,
    /// Integer identifying a service version.
    pub version_id: i32,
    /// The name for the real-time logging configuration.
    pub logging_digitalocean_name: String,
}

/// What [`list_log_digocean`] is called with.
#[derive(Clone, Debug)]
pub struct ListLogDigoceanParams {
    /// Alphanumeric string identifying the service.
    pub service_id: String,
    /// Integer identifying a service version.
    pub version_id: i32,
}

/// What [`update_log_digocean`] is called with.
#[derive(Clone, Debug)]
pub struct UpdateLogDigoceanParams {
    /// Alphanumeric string identifying the service.
    pub service_id: String,
    /// Integer identifying a service version.
    pub version_id: i32,
    /// The name of the configuration to update.
    pub logging_digitalocean_name: String,
    /// The name for the real-time logging configuration.
    pub name: Option<String>,
    /// Where in the VCL the logging call is placed.
    pub placement: Option<String>,
    /// The name of an existing condition in the configured endpoint.
    pub response_condition: Option<String>,
    /// A log format string.
    pub format: Option<String>,
    /// The version of the custom logging format, 1 or 2.
    pub format_version: Option<i32>,
    /// How the message should be formatted.
    pub message_type: Option<String>,
    /// A timestamp format.
    pub timestamp_format: Option<String>,
    /// The codec used for compressing the logs: `zstd`, `snappy` or `gzip`.
    pub compression_codec: Option<String>,
    /// How frequently log files are finalized, in seconds.
    pub period: Option<i32>,
    /// The level of gzip encoding when sending logs.
    pub gzip_level: Option<i32>,
    /// The name of the DigitalOcean Space.
    pub bucket_name: Option<String>,
    /// The access key of the DigitalOcean Spaces account.
    pub access_key: Option<String>,
    /// The secret key of the DigitalOcean Spaces account.
    pub secret_key: Option<String>,
    /// The domain of the DigitalOcean Spaces endpoint.
    pub domain: Option<String>,
    /// The path to upload logs to.
    pub path: Option<String>,
    /// A PGP public key to encrypt the log files with.
    pub public_key: Option<String>,
}

impl Default for CreateLogDigoceanParams {
    fn default() -> (params: CreateLogDigoceanParams)
        ensures
            params.service_id@ == Seq::<char>::empty(),
            params.version_id == 0,
            params.name is None,
            params.placement is None,
            params.response_condition is None,
            params.format is None,
            params.format_version is None,
            params.message_type is None,
            params.timestamp_format is None,
            params.compression_codec is None,
            params.period is None,
            params.gzip_level is None,
            params.bucket_name is None,
            params.access_key is None,
            params.secret_key is None,
            params.domain is None,
            params.path is None,
            params.public_key is None,
    {
        CreateLogDigoceanParams {
            service_id: String::new(),
            version_id: 0,
            name: None,
            placement: None,
            response_condition: None,
            format: None,
            format_version: None,
            message_type: None,
            timestamp_format: None,
            compression_codec: None,
            period: None,
            gzip_level: None,
            bucket_name: None,
            access_key: None,
            secret_key: None,
            domain: None,
            path: None,
            public_key: None,
        }
    }
}

impl Default for DeleteLogDigoceanParams {
    fn default() -> (params: DeleteLogDigoceanParams)
        ensures
            params.service_id@ == Seq::<char>::empty(),
            params.version_id == 0,
            params.logging_digitalocean_name@ == Seq::<char>::empty(),
    {
        DeleteLogDigoceanParams {
            service_id: String::new(),
            version_id: 0,
            logging_digitalocean_name: String::new(),
        }
    }
}

impl Default for GetLogDigoceanParams {
    fn default() -> (params: GetLogDigoceanParams)
        ensures
            params.service_id@ == Seq::<char>::empty(),
            params.version_id == 0,
            params.logging_digitalocean_name@ == Seq::<char>::empty(),
    {
        GetLogDigoceanParams {
            service_id: String::new(),
            version_id: 0,
            logging_digitalocean_name: String::new(),
        }
    }
}

impl Default for ListLogDigoceanParams {
    fn default() -> (params: ListLogDigoceanParams)
        ensures
            params.service_id@ == Seq::<char>::empty(),
            params.version_id == 0,
    {
        ListLogDigoceanParams { service_id: String::new(), version_id: 0 }
    }
}

impl Default for UpdateLogDigoceanParams {
    fn default() -> (params: UpdateLogDigoceanParams)
        ensures
            params.service_id@ == Seq::<char>::empty(),
            params.version_id == 0,
            params.logging_digitalocean_name@ == Seq::<char>::empty(),
            params.name is None,
            params.placement is None,
            params.response_condition is None,
            params.format is None,
            params.format_version is None,
            params.message_type is None,
            params.timestamp_format is None,
            params.compression_codec is None,
            params.period is None,
            params.gzip_level is None,
            params.bucket_name is None,
            params.access_key is None,
            params.secret_key is None,
            params.domain is None,
            params.path is None,
            params.public_key is None,
    {
        UpdateLogDigoceanParams {
            service_id: String::new(),
            version_id: 0,
            logging_digitalocean_name: String::new(),
            name: None,
            placement: None,
            response_condition: None,
            format: None,
            format_version: None,
            message_type: None,
            timestamp_format: None,
            compression_codec: None,
            period: None,
            gzip_level: None,
            bucket_name: None,
            access_key: None,
            secret_key: None,
            domain: None,
            path: None,
            public_key: None,
        }
    }
}

/// The error payload of [`create_log_digocean`].
#[derive(Debug, Clone)]
pub enum CreateLogDigoceanError {
    UnknownValue(serde_json::Value),
}

/// The error payload of [`delete_log_digocean`].
#[derive(Debug, Clone)]
pub enum DeleteLogDigoceanError {
    UnknownValue(serde_json::Value),
}

/// The error payload of [`get_log_digocean`].
#[derive(Debug, Clone)]
pub enum GetLogDigoceanError {
    UnknownValue(serde_json::Value),
}

/// The error payload of [`list_log_digocean`].
#[derive(Debug, Clone)]
pub enum ListLogDigoceanError {
    UnknownValue(serde_json::Value),
}

/// The error payload of [`update_log_digocean`].
#[derive(Debug, Clone)]
pub enum UpdateLogDigoceanError {
    UnknownValue(serde_json::Value),
}

impl ErrorEntity for CreateLogDigoceanError {
    fn from_document(document: serde_json::Value) -> (entity: CreateLogDigoceanError)
        ensures
            entity == CreateLogDigoceanError::UnknownValue(document),
    {
        CreateLogDigoceanError::UnknownValue(document)
    }
}

impl ErrorEntity for DeleteLogDigoceanError {
    fn from_document(document: serde_json::Value) -> (entity: DeleteLogDigoceanError)
        ensures
            entity == DeleteLogDigoceanError::UnknownValue(document),
    {
        DeleteLogDigoceanError::UnknownValue(document)
    }
}

impl ErrorEntity for GetLogDigoceanError {
    fn from_document(document: serde_json::Value) -> (entity: GetLogDigoceanError)
        ensures
            entity == GetLogDigoceanError::UnknownValue(document),
    {
        GetLogDigoceanError::UnknownValue(document)
    }
}

impl ErrorEntity for ListLogDigoceanError {
    fn from_document(document: serde_json::Value) -> (entity: ListLogDigoceanError)
        ensures
            entity == ListLogDigoceanError::UnknownValue(document),
    {
        ListLogDigoceanError::UnknownValue(document)
    }
}

impl ErrorEntity for UpdateLogDigoceanError {
    fn from_document(document: serde_json::Value) -> (entity: UpdateLogDigoceanError)
        ensures
            entity == UpdateLogDigoceanError::UnknownValue(document),
    {
        UpdateLogDigoceanError::UnknownValue(document)
    }
}

/// The path of the collection of endpoints of one service version. The
/// service's identifier is percent-encoded before it is put in.
pub open spec fn collection_path(service_id: Seq<char>, version_id: i32) -> Seq<char> {
    "/service/"@ + urlencoded(service_id) + "/version/"@ + decimal(version_id as int)
        + "/logging/digitalocean"@
}

/// The path of one endpoint, by its name. The name is percent-encoded
/// before it is put in.
pub open spec fn member_path(service_id: Seq<char>, version_id: i32, name: Seq<char>) -> Seq<
    char,
> {
    collection_path(service_id, version_id) + "/"@ + urlencoded(name)
}

/// Text that can stand as one segment of a path: it holds no `/`, `?` or
/// `#`, nor anything else that would need escaping.
pub open spec fn is_segment(text: Seq<char>) -> bool {
    forall|i: int| 0 <= i < text.len() ==> is_encoded_char(#[trigger] text[i])
}

/// The path made of the segments, each behind a `/`.
pub open spec fn path_of(segments: Seq<Seq<char>>) -> Seq<char>
    decreases segments.len(),
{
    if segments.len() == 0 {
        Seq::empty()
    } else {
        path_of(segments.drop_last()) + seq!['/'] + segments.last()
    }
}

/// The segments of the path of a collection.
pub open spec fn collection_segments(service_id: Seq<char>, version_id: i32) -> Seq<Seq<char>> {
    seq![
        "service"@,
        urlencoded(service_id),
        "version"@,
        decimal(version_id as int),
        "logging"@,
        "digitalocean"@,
    ]
}

/// Whatever the service's identifier holds, the path of a collection has
/// six segments, and the identifier, encoded, is the second of them: no
/// character of the identifier can end its segment or start a query.
pub proof fn lemma_collection_path_is_well_formed(service_id: Seq<char>, version_id: i32)
    ensures
        collection_path(service_id, version_id) == path_of(
            collection_segments(service_id, version_id),
        ),
        forall|k: int|
            0 <= k < 6 ==> is_segment(#[trigger] collection_segments(service_id, version_id)[k]),
{
    let segments = collection_segments(service_id, version_id);
    reveal_strlit("/service/");
    reveal_strlit("/version/");
    reveal_strlit("/logging/digitalocean");
    reveal_strlit("service");
    reveal_strlit("version");
    reveal_strlit("logging");
    reveal_strlit("digitalocean");
    lemma_urlencoded_is_safe(service_id);
    lemma_decimal_is_safe(version_id as int);
    let upto5 = segments.drop_last();
    let upto4 = upto5.drop_last();
    let upto3 = upto4.drop_last();
    let upto2 = upto3.drop_last();
    let upto1 = upto2.drop_last();
    assert(path_of(upto1.drop_last()) == Seq::<char>::empty());
    assert(path_of(upto1) =~= seq!['/'] + "service"@);
    assert(path_of(upto2) =~= path_of(upto1) + seq!['/'] + urlencoded(service_id));
    assert(path_of(upto3) =~= path_of(upto2) + seq!['/'] + "version"@);
    assert(path_of(upto4) =~= path_of(upto3) + seq!['/'] + decimal(version_id as int));
    assert(path_of(upto5) =~= path_of(upto4) + seq!['/'] + "logging"@);
    assert(path_of(segments) =~= path_of(upto5) + seq!['/'] + "digitalocean"@);
}

/// Whatever the identifier and the name hold, the path of an endpoint is
/// the path of its collection and one more segment, the name, encoded.
pub proof fn lemma_member_path_is_well_formed(
    service_id: Seq<char>,
    version_id: i32,
    name: Seq<char>,
)
    ensures
        member_path(service_id, version_id, name) == path_of(
            collection_segments(service_id, version_id).push(urlencoded(name)),
        ),
        is_segment(urlencoded(name)),
{
    let segments = collection_segments(service_id, version_id).push(urlencoded(name));
    lemma_collection_path_is_well_formed(service_id, version_id);
    lemma_urlencoded_is_safe(name);
    reveal_strlit("/");
    assert(segments.drop_last() == collection_segments(service_id, version_id));
}

/// The form field for a text setting: one field where the setting is
/// given, none where it is not.
pub open spec fn text_field(name: Seq<char>, value: Option<String>) -> Seq<
    (Seq<char>, Seq<char>),
> {
    match value {
        Some(text) => seq![(name, text@)],
        None => Seq::empty(),
    }
}

/// The form field for a numeric setting, in decimal.
pub open spec fn number_field(name: Seq<char>, value: Option<i32>) -> Seq<
    (Seq<char>, Seq<char>),
> {
    match value {
        Some(number) => seq![(name, decimal(number as int))],
        None => Seq::empty(),
    }
}

/// The form fields of a create call: the settings that are given, in the
/// order in which the parameters declare them.
pub open spec fn create_log_digocean_form(params: CreateLogDigoceanParams) -> Seq<
    (Seq<char>, Seq<char>),
> {
    text_field("name"@, params.name)
        + text_field("placement"@, params.placement)
        + text_field("response_condition"@, params.response_condition)
        + text_field("format"@, params.format)
        + number_field("format_version"@, params.format_version)
        + text_field("message_type"@, params.message_type)
        + text_field("timestamp_format"@, params.timestamp_format)
        + text_field("compression_codec"@, params.compression_codec)
        + number_field("period"@, params.period)
        + number_field("gzip_level"@, params.gzip_level)
        + text_field("bucket_name"@, params.bucket_name)
        + text_field("access_key"@, params.access_key)
        + text_field("secret_key"@, params.secret_key)
        + text_field("domain"@, params.domain)
        + text_field("path"@, params.path)
        + text_field("public_key"@, params.public_key)
}

/// The form fields of an update call: the settings that are given, in the
/// order in which the parameters declare them.
pub open spec fn update_log_digocean_form(params: UpdateLogDigoceanParams) -> Seq<
    (Seq<char>, Seq<char>),
> {
    text_field("name"@, params.name)
        + text_field("placement"@, params.placement)
        + text_field("response_condition"@, params.response_condition)
        + text_field("format"@, params.format)
        + number_field("format_version"@, params.format_version)
        + text_field("message_type"@, params.message_type)
        + text_field("timestamp_format"@, params.timestamp_format)
        + text_field("compression_codec"@, params.compression_codec)
        + number_field("period"@, params.period)
        + number_field("gzip_level"@, params.gzip_level)
        + text_field("bucket_name"@, params.bucket_name)
        + text_field("access_key"@, params.access_key)
        + text_field("secret_key"@, params.secret_key)
        + text_field("domain"@, params.domain)
        + text_field("path"@, params.path)
        + text_field("public_key"@, params.public_key)
}

/// The place of a setting among the settings, in the order in which the
/// parameters declare them, by its name; sixteen for any other text.
pub open spec fn setting_rank(name: Seq<char>) -> int {
    if name == "name"@ {
        0
    } else if name == "placement"@ {
        1
    } else if name == "response_condition"@ {
        2
    } else if name == "format"@ {
        3
    } else if name == "format_version"@ {
        4
    } else if name == "message_type"@ {
        5
    } else if name == "timestamp_format"@ {
        6
    } else if name == "compression_codec"@ {
        7
    } else if name == "period"@ {
        8
    } else if name == "gzip_level"@ {
        9
    } else if name == "bucket_name"@ {
        10
    } else if name == "access_key"@ {
        11
    } else if name == "secret_key"@ {
        12
    } else if name == "domain"@ {
        13
    } else if name == "path"@ {
        14
    } else if name == "public_key"@ {
        15
    } else {
        16
    }
}

/// Whether the fields stand in the order of their settings, so that no
/// setting occurs twice.
pub open spec fn in_declared_order(fields: Seq<(Seq<char>, Seq<char>)>) -> bool {
    forall|i: int, j: int|
        0 <= i < j < fields.len() ==> setting_rank(#[trigger] fields[i].0) < setting_rank(
            #[trigger] fields[j].0,
        )
}

spec fn is_ranked_below(fields: Seq<(Seq<char>, Seq<char>)>, bound: int) -> bool {
    &&& in_declared_order(fields)
    &&& forall|i: int| 0 <= i < fields.len() ==> setting_rank(#[trigger] fields[i].0) < bound
}

proof fn lemma_next_setting(
    fields: Seq<(Seq<char>, Seq<char>)>,
    next: Seq<(Seq<char>, Seq<char>)>,
    rank: int,
)
    requires
        is_ranked_below(fields, rank),
        next.len() <= 1,
        next.len() == 1 ==> setting_rank(next[0].0) == rank,
    ensures
        is_ranked_below(fields + next, rank + 1),
{
    let all = fields + next;
    assert forall|i: int, j: int| 0 <= i < j < all.len() implies setting_rank(
        #[trigger] all[i].0,
    ) < setting_rank(#[trigger] all[j].0) by {
        assert(all[i] == fields[i]);
        if j < fields.len() {
            assert(all[j] == fields[j]);
        }
    }
    assert forall|i: int| 0 <= i < all.len() implies setting_rank(#[trigger] all[i].0) < rank
        + 1 by {
        if i < fields.len() {
            assert(all[i] == fields[i]);
        }
    }
}

proof fn lemma_setting_ranks()
    ensures
        setting_rank("name"@) == 0,
        setting_rank("placement"@) == 1,
        setting_rank("response_condition"@) == 2,
        setting_rank("format"@) == 3,
        setting_rank("format_version"@) == 4,
        setting_rank("message_type"@) == 5,
        setting_rank("timestamp_format"@) == 6,
        setting_rank("compression_codec"@) == 7,
        setting_rank("period"@) == 8,
        setting_rank("gzip_level"@) == 9,
        setting_rank("bucket_name"@) == 10,
        setting_rank("access_key"@) == 11,
        setting_rank("secret_key"@) == 12,
        setting_rank("domain"@) == 13,
        setting_rank("path"@) == 14,
        setting_rank("public_key"@) == 15,
{
    reveal_strlit("name");
    reveal_strlit("placement");
    reveal_strlit("response_condition");
    reveal_strlit("format");
    reveal_strlit("format_version");
    reveal_strlit("message_type");
    reveal_strlit("timestamp_format");
    reveal_strlit("compression_codec");
    reveal_strlit("period");
    reveal_strlit("gzip_level");
    reveal_strlit("bucket_name");
    reveal_strlit("access_key");
    reveal_strlit("secret_key");
    reveal_strlit("domain");
    reveal_strlit("path");
    reveal_strlit("public_key");
    assert("name"@.len() == 4 && "name"@[0] == 'n');
    assert("placement"@.len() == 9 && "placement"@[0] == 'p');
    assert("response_condition"@.len() == 18 && "response_condition"@[0] == 'r');
    assert("format"@.len() == 6 && "format"@[0] == 'f');
    assert("format_version"@.len() == 14 && "format_version"@[0] == 'f');
    assert("message_type"@.len() == 12 && "message_type"@[0] == 'm');
    assert("timestamp_format"@.len() == 16 && "timestamp_format"@[0] == 't');
    assert("compression_codec"@.len() == 17 && "compression_codec"@[0] == 'c');
    assert("period"@.len() == 6 && "period"@[0] == 'p');
    assert("gzip_level"@.len() == 10 && "gzip_level"@[0] == 'g');
    assert("bucket_name"@.len() == 11 && "bucket_name"@[0] == 'b');
    assert("access_key"@.len() == 10 && "access_key"@[0] == 'a');
    assert("secret_key"@.len() == 10 && "secret_key"@[0] == 's');
    assert("domain"@.len() == 6 && "domain"@[0] == 'd');
    assert("path"@.len() == 4 && "path"@[0] == 'p');
    assert("public_key"@.len() == 10 && "public_key"@[0] == 'p');
}

/// The form of a create call holds its settings in the order in which the
/// parameters declare them, and none of them twice.
pub proof fn lemma_create_form_is_in_declared_order(params: CreateLogDigoceanParams)
    ensures
        in_declared_order(create_log_digocean_form(params)),
        forall|i: int, j: int|
            0 <= i < j < create_log_digocean_form(params).len() ==> #[trigger] create_log_digocean_form(
                params,
            )[i].0 != #[trigger] create_log_digocean_form(params)[j].0,
{
    lemma_setting_ranks();
    let upto1 = text_field("name"@, params.name);
    lemma_next_setting(Seq::empty(), upto1, 0);
    assert(Seq::<(Seq<char>, Seq<char>)>::empty() + upto1 =~= upto1);
    let upto2 = upto1 + text_field("placement"@, params.placement);
    lemma_next_setting(upto1, text_field("placement"@, params.placement), 1);
    let upto3 = upto2 + text_field("response_condition"@, params.response_condition);
    lemma_next_setting(upto2, text_field("response_condition"@, params.response_condition), 2);
    let upto4 = upto3 + text_field("format"@, params.format);
    lemma_next_setting(upto3, text_field("format"@, params.format), 3);
    let upto5 = upto4 + number_field("format_version"@, params.format_version);
    lemma_next_setting(upto4, number_field("format_version"@, params.format_version), 4);
    let upto6 = upto5 + text_field("message_type"@, params.message_type);
    lemma_next_setting(upto5, text_field("message_type"@, params.message_type), 5);
    let upto7 = upto6 + text_field("timestamp_format"@, params.timestamp_format);
    lemma_next_setting(upto6, text_field("timestamp_format"@, params.timestamp_format), 6);
    let upto8 = upto7 + text_field("compression_codec"@, params.compression_codec);
    lemma_next_setting(upto7, text_field("compression_codec"@, params.compression_codec), 7);
    let upto9 = upto8 + number_field("period"@, params.period);
    lemma_next_setting(upto8, number_field("period"@, params.period), 8);
    let upto10 = upto9 + number_field("gzip_level"@, params.gzip_level);
    lemma_next_setting(upto9, number_field("gzip_level"@, params.gzip_level), 9);
    let upto11 = upto10 + text_field("bucket_name"@, params.bucket_name);
    lemma_next_setting(upto10, text_field("bucket_name"@, params.bucket_name), 10);
    let upto12 = upto11 + text_field("access_key"@, params.access_key);
    lemma_next_setting(upto11, text_field("access_key"@, params.access_key), 11);
    let upto13 = upto12 + text_field("secret_key"@, params.secret_key);
    lemma_next_setting(upto12, text_field("secret_key"@, params.secret_key), 12);
    let upto14 = upto13 + text_field("domain"@, params.domain);
    lemma_next_setting(upto13, text_field("domain"@, params.domain), 13);
    let upto15 = upto14 + text_field("path"@, params.path);
    lemma_next_setting(upto14, text_field("path"@, params.path), 14);
    let upto16 = upto15 + text_field("public_key"@, params.public_key);
    lemma_next_setting(upto15, text_field("public_key"@, params.public_key), 15);
    assert(create_log_digocean_form(params) == upto16);
}

/// The form of an update call holds its settings in the order in which the
/// parameters declare them, and none of them twice.
pub proof fn lemma_update_form_is_in_declared_order(params: UpdateLogDigoceanParams)
    ensures
        in_declared_order(update_log_digocean_form(params)),
        forall|i: int, j: int|
            0 <= i < j < update_log_digocean_form(params).len() ==> #[trigger] update_log_digocean_form(
                params,
            )[i].0 != #[trigger] update_log_digocean_form(params)[j].0,
{
    lemma_setting_ranks();
    let upto1 = text_field("name"@, params.name);
    lemma_next_setting(Seq::empty(), upto1, 0);
    assert(Seq::<(Seq<char>, Seq<char>)>::empty() + upto1 =~= upto1);
    let upto2 = upto1 + text_field("placement"@, params.placement);
    lemma_next_setting(upto1, text_field("placement"@, params.placement), 1);
    let upto3 = upto2 + text_field("response_condition"@, params.response_condition);
    lemma_next_setting(upto2, text_field("response_condition"@, params.response_condition), 2);
    let upto4 = upto3 + text_field("format"@, params.format);
    lemma_next_setting(upto3, text_field("format"@, params.format), 3);
    let upto5 = upto4 + number_field("format_version"@, params.format_version);
    lemma_next_setting(upto4, number_field("format_version"@, params.format_version), 4);
    let upto6 = upto5 + text_field("message_type"@, params.message_type);
    lemma_next_setting(upto5, text_field("message_type"@, params.message_type), 5);
    let upto7 = upto6 + text_field("timestamp_format"@, params.timestamp_format);
    lemma_next_setting(upto6, text_field("timestamp_format"@, params.timestamp_format), 6);
    let upto8 = upto7 + text_field("compression_codec"@, params.compression_codec);
    lemma_next_setting(upto7, text_field("compression_codec"@, params.compression_codec), 7);
    let upto9 = upto8 + number_field("period"@, params.period);
    lemma_next_setting(upto8, number_field("period"@, params.period), 8);
    let upto10 = upto9 + number_field("gzip_level"@, params.gzip_level);
    lemma_next_setting(upto9, number_field("gzip_level"@, params.gzip_level), 9);
    let upto11 = upto10 + text_field("bucket_name"@, params.bucket_name);
    lemma_next_setting(upto10, text_field("bucket_name"@, params.bucket_name), 10);
    let upto12 = upto11 + text_field("access_key"@, params.access_key);
    lemma_next_setting(upto11, text_field("access_key"@, params.access_key), 11);
    let upto13 = upto12 + text_field("secret_key"@, params.secret_key);
    lemma_next_setting(upto12, text_field("secret_key"@, params.secret_key), 12);
    let upto14 = upto13 + text_field("domain"@, params.domain);
    lemma_next_setting(upto13, text_field("domain"@, params.domain), 13);
    let upto15 = upto14 + text_field("path"@, params.path);
    lemma_next_setting(upto14, text_field("path"@, params.path), 14);
    let upto16 = upto15 + text_field("public_key"@, params.public_key);
    lemma_next_setting(upto15, text_field("public_key"@, params.public_key), 15);
    assert(update_log_digocean_form(params) == upto16);
}

/// A create call that gives a name and no other setting sends one form
/// field, the name, and leaves every other key out of the body.
pub proof fn lemma_create_form_of_name_alone(params: CreateLogDigoceanParams)
    requires
        params.name is Some,
        params.placement is None,
        params.response_condition is None,
        params.format is None,
        params.format_version is None,
        params.message_type is None,
        params.timestamp_format is None,
        params.compression_codec is None,
        params.period is None,
        params.gzip_level is None,
        params.bucket_name is None,
        params.access_key is None,
        params.secret_key is None,
        params.domain is None,
        params.path is None,
        params.public_key is None,
    ensures
        create_log_digocean_form(params) == seq![("name"@, params.name->0@)],
        form_urlencoded(create_log_digocean_form(params)) == form_pair(
            "name"@,
            params.name->0@,
        ),
{
}

/// The request of [`create_log_digocean`]: `POST` to the collection, with
/// the settings as a form.
pub open spec fn create_log_digocean_request(
    configuration: ConfigurationView,
    params: CreateLogDigoceanParams,
) -> RequestView {
    request_for(
        configuration,
        Method::Post,
        collection_path(params.service_id@, params.version_id),
        Some(create_log_digocean_form(params)),
    )
}

/// The request of [`delete_log_digocean`]: `DELETE` on the endpoint.
pub open spec fn delete_log_digocean_request(
    configuration: ConfigurationView,
    params: DeleteLogDigoceanParams,
) -> RequestView {
    request_for(
        configuration,
        Method::Delete,
        member_path(params.service_id@, params.version_id, params.logging_digitalocean_name@),
        None,
    )
}

/// The request of [`get_log_digocean`]: `GET` on the endpoint.
pub open spec fn get_log_digocean_request(
    configuration: ConfigurationView,
    params: GetLogDigoceanParams,
) -> RequestView {
    request_for(
        configuration,
        Method::Get,
        member_path(params.service_id@, params.version_id, params.logging_digitalocean_name@),
        None,
    )
}

/// The request of [`list_log_digocean`]: `GET` on the collection.
pub open spec fn list_log_digocean_request(
    configuration: ConfigurationView,
    params: ListLogDigoceanParams,
) -> RequestView {
    request_for(
        configuration,
        Method::Get,
        collection_path(params.service_id@, params.version_id),
        None,
    )
}

/// The request of [`update_log_digocean`]: `PUT` on the endpoint, with the
/// settings as a form.
pub open spec fn update_log_digocean_request(
    configuration: ConfigurationView,
    params: UpdateLogDigoceanParams,
) -> RequestView {
    request_for(
        configuration,
        Method::Put,
        member_path(params.service_id@, params.version_id, params.logging_digitalocean_name@),
        Some(update_log_digocean_form(params)),
    )
}

fn collection_path_of(service_id: &str, version_id: i32) -> (path: String)
    ensures
        path@ == collection_path(service_id@, version_id),
{
    let mut path = "/service/".to_owned();
    push_urlencoded(&mut path, service_id);
    path.append("/version/");
    push_decimal(&mut path, version_id);
    path.append("/logging/digitalocean");
    path
}

fn member_path_of(service_id: &str, version_id: i32, name: &str) -> (path: String)
    ensures
        path@ == member_path(service_id@, version_id, name@),
{
    let mut path = collection_path_of(service_id, version_id);
    path.append("/");
    push_urlencoded(&mut path, name);
    path
}

fn push_text_field(fields: &mut Vec<(String, String)>, name: &str, value: Option<String>)
    ensures
        final(fields).deep_view() == old(fields).deep_view() + text_field(name@, value),
{
    if let Some(text) = value {
        fields.push((name.to_owned(), text));
    }
}

fn push_number_field(fields: &mut Vec<(String, String)>, name: &str, value: Option<i32>)
    ensures
        final(fields).deep_view() == old(fields).deep_view() + number_field(name@, value),
{
    if let Some(number) = value {
        fields.push((name.to_owned(), decimal_string(number)));
    }
}

/// Creates a DigitalOcean Space endpoint for a service and version.
///
/// The request goes to `send` once. What the answer advertises of the rate
/// limit is recorded. A status from 400 to 599 fails with the status and
/// the body; any other status hands the body to `decode`, whose payload is
/// returned.
pub fn create_log_digocean<T, S, D>(
    configuration: &mut Configuration,
    params: CreateLogDigoceanParams,
    send: S,
    decode: D,
) -> (result: Result<T, ApiError<CreateLogDigoceanError>>) where
    S: FnOnce(Request) -> Result<Response, TransportError>,
    D: FnOnce(&str) -> Result<T, serde_json::Error>,

    requires
        is_ready(send, create_log_digocean_request(old(configuration)@, params)),
        forall|body: &str| call_requires(decode, (body,)),
    ensures
        performs(
            old(configuration)@,
            final(configuration)@,
            create_log_digocean_request(old(configuration)@, params),
            send,
            decode,
            result,
        ),
{
    let path = collection_path_of(params.service_id.as_str(), params.version_id);
    let mut fields: Vec<(String, String)> = Vec::new();
    push_text_field(&mut fields, "name", params.name);
    push_text_field(&mut fields, "placement", params.placement);
    push_text_field(&mut fields, "response_condition", params.response_condition);
    push_text_field(&mut fields, "format", params.format);
    push_number_field(&mut fields, "format_version", params.format_version);
    push_text_field(&mut fields, "message_type", params.message_type);
    push_text_field(&mut fields, "timestamp_format", params.timestamp_format);
    push_text_field(&mut fields, "compression_codec", params.compression_codec);
    push_number_field(&mut fields, "period", params.period);
    push_number_field(&mut fields, "gzip_level", params.gzip_level);
    push_text_field(&mut fields, "bucket_name", params.bucket_name);
    push_text_field(&mut fields, "access_key", params.access_key);
    push_text_field(&mut fields, "secret_key", params.secret_key);
    push_text_field(&mut fields, "domain", params.domain);
    push_text_field(&mut fields, "path", params.path);
    push_text_field(&mut fields, "public_key", params.public_key);
    execute(configuration, Method::Post, path.as_str(), Some(&fields), send, decode)
}

/// Deletes the DigitalOcean Space endpoint of a service and version.
///
/// The request goes to `send` once. What the answer advertises of the rate
/// limit is recorded. A status from 400 to 599 fails with the status and
/// the body; any other status hands the body to `decode`, whose payload is
/// returned.
pub fn delete_log_digocean<T, S, D>(
    configuration: &mut Configuration,
    params: DeleteLogDigoceanParams,
    send: S,
    decode: D,
) -> (result: Result<T, ApiError<DeleteLogDigoceanError>>) where
    S: FnOnce(Request) -> Result<Response, TransportError>,
    D: FnOnce(&str) -> Result<T, serde_json::Error>,

    requires
        is_ready(send, delete_log_digocean_request(old(configuration)@, params)),
        forall|body: &str| call_requires(decode, (body,)),
    ensures
        performs(
            old(configuration)@,
            final(configuration)@,
            delete_log_digocean_request(old(configuration)@, params),
            send,
            decode,
            result,
        ),
{
    let path = member_path_of(
        params.service_id.as_str(),
        params.version_id,
        params.logging_digitalocean_name.as_str(),
    );
    execute(configuration, Method::Delete, path.as_str(), None, send, decode)
}

/// Reads the DigitalOcean Space endpoint of a service and version.
///
/// The request goes to `send` once. The configuration stays as it is: the
/// rate limit is not recorded for `GET`. A status from 400 to 599 fails
/// with the status and the body; any other status hands the body to
/// `decode`, whose payload is returned.
pub fn get_log_digocean<T, S, D>(
    configuration: &mut Configuration,
    params: GetLogDigoceanParams,
    send: S,
    decode: D,
) -> (result: Result<T, ApiError<GetLogDigoceanError>>) where
    S: FnOnce(Request) -> Result<Response, TransportError>,
    D: FnOnce(&str) -> Result<T, serde_json::Error>,

    requires
        is_ready(send, get_log_digocean_request(old(configuration)@, params)),
        forall|body: &str| call_requires(decode, (body,)),
    ensures
        performs(
            old(configuration)@,
            final(configuration)@,
            get_log_digocean_request(old(configuration)@, params),
            send,
            decode,
            result,
        ),
{
    let path = member_path_of(
        params.service_id.as_str(),
        params.version_id,
        params.logging_digitalocean_name.as_str(),
    );
    execute(configuration, Method::Get, path.as_str(), None, send, decode)
}

/// Lists the DigitalOcean Space endpoints of a service and version.
///
/// The request goes to `send` once. The configuration stays as it is: the
/// rate limit is not recorded for `GET`. A status from 400 to 599 fails
/// with the status and the body; any other status hands the body to
/// `decode`, whose payload is returned.
pub fn list_log_digocean<T, S, D>(
    configuration: &mut Configuration,
    params: ListLogDigoceanParams,
    send: S,
    decode: D,
) -> (result: Result<T, ApiError<ListLogDigoceanError>>) where
    S: FnOnce(Request) -> Result<Response, TransportError>,
    D: FnOnce(&str) -> Result<T, serde_json::Error>,

    requires
        is_ready(send, list_log_digocean_request(old(configuration)@, params)),
        forall|body: &str| call_requires(decode, (body,)),
    ensures
        performs(
            old(configuration)@,
            final(configuration)@,
            list_log_digocean_request(old(configuration)@, params),
            send,
            decode,
            result,
        ),
{
    let path = collection_path_of(params.service_id.as_str(), params.version_id);
    execute(configuration, Method::Get, path.as_str(), None, send, decode)
}

/// Updates the DigitalOcean Space endpoint of a service and version.
///
/// The request goes to `send` once. What the answer advertises of the rate
/// limit is recorded. A status from 400 to 599 fails with the status and
/// the body; any other status hands the body to `decode`, whose payload is
/// returned.
pub fn update_log_digocean<T, S, D>(
    configuration: &mut Configuration,
    params: UpdateLogDigoceanParams,
    send: S,
    decode: D,
) -> (result: Result<T, ApiError<UpdateLogDigoceanError>>) where
    S: FnOnce(Request) -> Result<Response, TransportError>,
    D: FnOnce(&str) -> Result<T, serde_json::Error>,

    requires
        is_ready(send, update_log_digocean_request(old(configuration)@, params)),
        forall|body: &str| call_requires(decode, (body,)),
    ensures
        performs(
            old(configuration)@,
            final(configuration)@,
            update_log_digocean_request(old(configuration)@, params),
            send,
            decode,
            result,
        ),
{
    let path = member_path_of(
        params.service_id.as_str(),
        params.version_id,
        params.logging_digitalocean_name.as_str(),
    );
    let mut fields: Vec<(String, String)> = Vec::new();
    push_text_field(&mut fields, "name", params.name);
    push_text_field(&mut fields, "placement", params.placement);
    push_text_field(&mut fields, "response_condition", params.response_condition);
    push_text_field(&mut fields, "format", params.format);
    push_number_field(&mut fields, "format_version", params.format_version);
    push_text_field(&mut fields, "message_type", params.message_type);
    push_text_field(&mut fields, "timestamp_format", params.timestamp_format);
    push_text_field(&mut fields, "compression_codec", params.compression_codec);
    push_number_field(&mut fields, "period", params.period);
    push_number_field(&mut fields, "gzip_level", params.gzip_level);
    push_text_field(&mut fields, "bucket_name", params.bucket_name);
    push_text_field(&mut fields, "access_key", params.access_key);
    push_text_field(&mut fields, "secret_key", params.secret_key);
    push_text_field(&mut fields, "domain", params.domain);
    push_text_field(&mut fields, "path", params.path);
    push_text_field(&mut fields, "public_key", params.public_key);
    execute(configuration, Method::Put, path.as_str(), Some(&fields), send, decode)
}

} // verus!
