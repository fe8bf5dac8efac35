//! Single settings of the configuration: reading them, changing them, and the `config` command.

use crate::config::{AppConfig, ConfigView, TestConfig};
use crate::error::Error;
use crate::number::{
    all_digits, digits_value, law_written_number_reads_back, lemma_decimal_reads_back, parse_u64,
    parse_usize, reads_as, unsigned_part, NumberError,
};
use crate::text::{decimal, decimal_text, lemma_made_of_four, made_of, same_text};
use vstd::prelude::*;

verus! {

/// A setting that can be read and changed by name.
#[derive(Debug, Clone, Copy, PartialEq, Eq, Structural)]
pub enum ConfigKey {
    DurationSeconds,
    Concurrency,
    TimeoutSeconds,
    ChunkSizeBytes,
    MaxDownloadBytes,
    MaxUploadBytes,
    SaveHistory,
    LatencyProbeCount,
}

/// The name of a setting.
pub open spec fn key_name(key: ConfigKey) -> Seq<char> {
    match key {
        ConfigKey::DurationSeconds => "test.duration_seconds"@,
        ConfigKey::Concurrency => "test.concurrency"@,
        ConfigKey::TimeoutSeconds => "test.timeout_seconds"@,
        ConfigKey::ChunkSizeBytes => "test.chunk_size_bytes"@,
        ConfigKey::MaxDownloadBytes => "test.max_download_bytes"@,
        ConfigKey::MaxUploadBytes => "test.max_upload_bytes"@,
        ConfigKey::SaveHistory => "test.save_history"@,
        ConfigKey::LatencyProbeCount => "test.latency_probe_count"@,
    }
}

/// The setting of this name.
pub open spec fn config_key(name: Seq<char>) -> Option<ConfigKey> {
    if name == key_name(ConfigKey::DurationSeconds) {
        Some(ConfigKey::DurationSeconds)
    } else if name == key_name(ConfigKey::Concurrency) {
        Some(ConfigKey::Concurrency)
    } else if name == key_name(ConfigKey::TimeoutSeconds) {
        Some(ConfigKey::TimeoutSeconds)
    } else if name == key_name(ConfigKey::ChunkSizeBytes) {
        Some(ConfigKey::ChunkSizeBytes)
    } else if name == key_name(ConfigKey::MaxDownloadBytes) {
        Some(ConfigKey::MaxDownloadBytes)
    } else if name == key_name(ConfigKey::MaxUploadBytes) {
        Some(ConfigKey::MaxUploadBytes)
    } else if name == key_name(ConfigKey::SaveHistory) {
        Some(ConfigKey::SaveHistory)
    } else if name == key_name(ConfigKey::LatencyProbeCount) {
        Some(ConfigKey::LatencyProbeCount)
    } else {
        None
    }
}

/// The largest number that a numeric setting can hold.
pub open spec fn key_limit(key: ConfigKey) -> nat {
    match key {
        ConfigKey::Concurrency | ConfigKey::ChunkSizeBytes | ConfigKey::LatencyProbeCount => {
            usize::MAX as nat
        },
        _ => u64::MAX as nat,
    }
}

/// The number that a numeric setting holds.
pub open spec fn number_of(test: TestConfig, key: ConfigKey) -> nat {
    match key {
        ConfigKey::DurationSeconds => test.duration_seconds as nat,
        ConfigKey::Concurrency => test.concurrency as nat,
        ConfigKey::TimeoutSeconds => test.timeout_seconds as nat,
        ConfigKey::ChunkSizeBytes => test.chunk_size_bytes as nat,
        ConfigKey::MaxDownloadBytes => test.max_download_bytes as nat,
        ConfigKey::MaxUploadBytes => test.max_upload_bytes as nat,
        ConfigKey::SaveHistory => 0,
        ConfigKey::LatencyProbeCount => test.latency_probe_count as nat,
    }
}

/// The parameters with a numeric setting changed.
pub open spec fn with_number(test: TestConfig, key: ConfigKey, n: nat) -> TestConfig {
    match key {
        ConfigKey::DurationSeconds => TestConfig { duration_seconds: n as u64, ..test },
        ConfigKey::Concurrency => TestConfig { concurrency: n as usize, ..test },
        ConfigKey::TimeoutSeconds => TestConfig { timeout_seconds: n as u64, ..test },
        ConfigKey::ChunkSizeBytes => TestConfig { chunk_size_bytes: n as usize, ..test },
        ConfigKey::MaxDownloadBytes => TestConfig { max_download_bytes: n as u64, ..test },
        ConfigKey::MaxUploadBytes => TestConfig { max_upload_bytes: n as u64, ..test },
        ConfigKey::SaveHistory => test,
        ConfigKey::LatencyProbeCount => TestConfig { latency_probe_count: n as usize, ..test },
    }
}

/// `true` or `false`.
pub open spec fn flag_text(flag: bool) -> Seq<char> {
    if flag {
        "true"@
    } else {
        "false"@
    }
}

/// The value of a setting as it is shown.
pub open spec fn setting_text(test: TestConfig, key: ConfigKey) -> Seq<char> {
    if key == ConfigKey::SaveHistory {
        flag_text(test.save_history)
    } else {
        decimal(number_of(test, key))
    }
}

/// Finds the setting of this name.
pub fn find_key(name: &str) -> (r: Option<ConfigKey>)
    ensures
        r == config_key(name@),
{
    if same_text(name, "test.duration_seconds") {
        Some(ConfigKey::DurationSeconds)
    } else if same_text(name, "test.concurrency") {
        Some(ConfigKey::Concurrency)
    } else if same_text(name, "test.timeout_seconds") {
        Some(ConfigKey::TimeoutSeconds)
    } else if same_text(name, "test.chunk_size_bytes") {
        Some(ConfigKey::ChunkSizeBytes)
    } else if same_text(name, "test.max_download_bytes") {
        Some(ConfigKey::MaxDownloadBytes)
    } else if same_text(name, "test.max_upload_bytes") {
        Some(ConfigKey::MaxUploadBytes)
    } else if same_text(name, "test.save_history") {
        Some(ConfigKey::SaveHistory)
    } else if same_text(name, "test.latency_probe_count") {
        Some(ConfigKey::LatencyProbeCount)
    } else {
        None
    }
}

/// The value of the setting `key` as it is shown, if there is such a setting.
pub fn get_config_value(cfg: &AppConfig, key: &str) -> (r: Option<String>)
    ensures
        match config_key(key@) {
            Some(k) => r is Some && r->Some_0@ == setting_text(cfg.test, k),
            None => r is None,
        },
{
    match find_key(key) {
        Some(ConfigKey::DurationSeconds) => Some(decimal_text(cfg.test.duration_seconds)),
        Some(ConfigKey::Concurrency) => Some(decimal_text(cfg.test.concurrency as u64)),
        Some(ConfigKey::TimeoutSeconds) => Some(decimal_text(cfg.test.timeout_seconds)),
        Some(ConfigKey::ChunkSizeBytes) => Some(decimal_text(cfg.test.chunk_size_bytes as u64)),
        Some(ConfigKey::MaxDownloadBytes) => Some(decimal_text(cfg.test.max_download_bytes)),
        Some(ConfigKey::MaxUploadBytes) => Some(decimal_text(cfg.test.max_upload_bytes)),
        Some(ConfigKey::SaveHistory) => {
            if cfg.test.save_history {
                Some("true".to_owned())
            } else {
                Some("false".to_owned())
            }
        },
        Some(ConfigKey::LatencyProbeCount) => {
            Some(decimal_text(cfg.test.latency_probe_count as u64))
        },
        None => None,
    }
}

/// What setting `key` to `value` makes of the configuration `before`: `after`, with the outcome
/// `r`. A failed change leaves the configuration as it was.
pub open spec fn set_result(
    before: ConfigView,
    key: Seq<char>,
    value: Seq<char>,
    after: ConfigView,
    r: Result<(), Error>,
) -> bool {
    match config_key(key) {
        None => {
            &&& after == before
            &&& r matches Err(Error::UnknownKey(name)) && name@ == key
        },
        Some(ConfigKey::SaveHistory) => {
            if value == "true"@ {
                &&& r is Ok
                &&& after == (ConfigView {
                    test: TestConfig { save_history: true, ..before.test },
                    ..before
                })
            } else if value == "false"@ {
                &&& r is Ok
                &&& after == (ConfigView {
                    test: TestConfig { save_history: false, ..before.test },
                    ..before
                })
            } else {
                &&& after == before
                &&& r matches Err(Error::Flag)
            }
        },
        Some(k) => match r {
            Ok(()) => {
                &&& reads_as(value, key_limit(k), Ok(number_of(after.test, k)))
                &&& after == (ConfigView {
                    test: with_number(before.test, k, number_of(after.test, k)),
                    ..before
                })
            },
            Err(Error::Number(e)) => {
                &&& reads_as(value, key_limit(k), Err(e))
                &&& after == before
            },
            Err(_) => false,
        },
    }
}

/// Sets the setting `key` to `value`.
pub fn set_config_value(cfg: &mut AppConfig, key: &str, value: &str) -> (r: Result<(), Error>)
    ensures
        set_result(old(cfg)@, key@, value@, final(cfg)@, r),
{
    match find_key(key) {
        Some(ConfigKey::DurationSeconds) => match parse_u64(value) {
            Ok(n) => { cfg.test.duration_seconds = n; },
            Err(e) => { return Err(Error::Number(e)); },
        },
        Some(ConfigKey::Concurrency) => match parse_usize(value) {
            Ok(n) => { cfg.test.concurrency = n; },
            Err(e) => { return Err(Error::Number(e)); },
        },
        Some(ConfigKey::TimeoutSeconds) => match parse_u64(value) {
            Ok(n) => { cfg.test.timeout_seconds = n; },
            Err(e) => { return Err(Error::Number(e)); },
        },
        Some(ConfigKey::ChunkSizeBytes) => match parse_usize(value) {
            Ok(n) => { cfg.test.chunk_size_bytes = n; },
            Err(e) => { return Err(Error::Number(e)); },
        },
        Some(ConfigKey::MaxDownloadBytes) => match parse_u64(value) {
            Ok(n) => { cfg.test.max_download_bytes = n; },
            Err(e) => { return Err(Error::Number(e)); },
        },
        Some(ConfigKey::MaxUploadBytes) => match parse_u64(value) {
            Ok(n) => { cfg.test.max_upload_bytes = n; },
            Err(e) => { return Err(Error::Number(e)); },
        },
        Some(ConfigKey::SaveHistory) => {
            if same_text(value, "true") {
                cfg.test.save_history = true;
            } else if same_text(value, "false") {
                cfg.test.save_history = false;
            } else {
                return Err(Error::Flag);
            }
        },
        Some(ConfigKey::LatencyProbeCount) => match parse_usize(value) {
            Ok(n) => { cfg.test.latency_probe_count = n; },
            Err(e) => { return Err(Error::Number(e)); },
        },
        None => { return Err(Error::UnknownKey(key.to_owned())); },
    }
    Ok(())
}

/// What the user asks of the configuration.
#[derive(Debug, PartialEq, Eq)]
pub enum ConfigAction {
    Show,
    Get { key: String },
    Assign { key: String, value: String },
}

/// What the `config` command does next.
#[derive(Debug, PartialEq, Eq)]
pub enum ConfigReply {
    /// Print the whole configuration.
    Whole,
    /// Print this value.
    Value(String),
    /// Write the configuration out, then print this message.
    Saved(String),
}

/// The message for a changed setting.
pub open spec fn updated_message(key: Seq<char>, value: Seq<char>) -> Seq<char> {
    "已更新: "@ + key + "="@ + value
}

/// Whether carrying out `action` on the configuration `before` gives `after` and `r`.
pub open spec fn carried_out(
    before: ConfigView,
    action: ConfigAction,
    after: ConfigView,
    r: Result<ConfigReply, Error>,
) -> bool {
    match action {
        ConfigAction::Show => {
            &&& after == before
            &&& r matches Ok(ConfigReply::Whole)
        },
        ConfigAction::Get { key } => {
            &&& after == before
            &&& match config_key(key@) {
                Some(k) => {
                    &&& r matches Ok(ConfigReply::Value(text))
                    &&& text@ == setting_text(before.test, k)
                },
                None => r matches Err(Error::UnknownKey(name)) && name@ == key@,
            }
        },
        ConfigAction::Assign { key, value } => match r {
            Ok(reply) => {
                &&& set_result(before, key@, value@, after, Ok(()))
                &&& reply matches ConfigReply::Saved(text)
                &&& text@ == updated_message(key@, value@)
            },
            Err(e) => set_result(before, key@, value@, after, Err(e)),
        },
    }
}

/// Carries out `action` on the configuration, up to printing and writing it.
pub fn run_config(cfg: &mut AppConfig, action: &ConfigAction) -> (r: Result<ConfigReply, Error>)
    ensures
        carried_out(old(cfg)@, *action, final(cfg)@, r),
{
    match action {
        ConfigAction::Show => Ok(ConfigReply::Whole),
        ConfigAction::Get { key } => match get_config_value(cfg, key.as_str()) {
            Some(value) => Ok(ConfigReply::Value(value)),
            None => Err(Error::UnknownKey(key.clone())),
        },
        ConfigAction::Assign { key, value } => match set_config_value(
            cfg,
            key.as_str(),
            value.as_str(),
        ) {
            Ok(()) => {
                let mut text = "已更新: ".to_owned();
                text.append(key.as_str());
                text.append("=");
                text.append(value.as_str());
                Ok(ConfigReply::Saved(text))
            },
            Err(e) => Err(e),
        },
    }
}

/// The names of the settings differ from one another, so each setting is found under its own
/// name.
pub proof fn law_every_setting_has_its_name(key: ConfigKey)
    ensures
        config_key(key_name(key)) == Some(key),
{
    reveal_strlit("test.duration_seconds");
    reveal_strlit("test.concurrency");
    reveal_strlit("test.timeout_seconds");
    reveal_strlit("test.chunk_size_bytes");
    reveal_strlit("test.max_download_bytes");
    reveal_strlit("test.max_upload_bytes");
    reveal_strlit("test.save_history");
    reveal_strlit("test.latency_probe_count");
    assert("test.duration_seconds"@[5] == 'd');
    assert("test.concurrency"@[6] == 'o');
    assert("test.timeout_seconds"@[5] == 't');
    assert("test.chunk_size_bytes"@[5] == 'c' && "test.chunk_size_bytes"@[6] == 'h');
    assert("test.max_download_bytes"@[5] == 'm' && "test.max_download_bytes"@[9] == 'd');
    assert("test.max_upload_bytes"@[5] == 'm' && "test.max_upload_bytes"@[9] == 'u');
    assert("test.save_history"@[5] == 's');
    assert("test.latency_probe_count"@[5] == 'l');
    assert("test.concurrency"@[5] == 'c');
}

/// A name is known for reading exactly when it is known for changing, and then it is the name of
/// a setting.
pub proof fn law_known_names_are_setting_names(name: Seq<char>)
    ensures
        match config_key(name) {
            Some(key) => name == key_name(key),
            None => forall|key: ConfigKey| name != #[trigger] key_name(key),
        },
{
}

/// After a successful change the setting shows the number or flag that was given, and every
/// other setting, the servers and the version are as before.
pub proof fn law_get_after_set(
    before: ConfigView,
    key: ConfigKey,
    value: Seq<char>,
    after: ConfigView,
    other: ConfigKey,
)
    requires
        set_result(before, key_name(key), value, after, Ok(())),
        other != key,
    ensures
        key == ConfigKey::SaveHistory ==> setting_text(after.test, key) == value,
        key != ConfigKey::SaveHistory ==> exists|n: nat|
            reads_as(value, key_limit(key), Ok(n)) && setting_text(after.test, key) == #[trigger]
                decimal(n),
        setting_text(after.test, other) == setting_text(before.test, other),
        after.servers == before.servers,
        after.version == before.version,
{
    law_every_setting_has_its_name(key);
    if key != ConfigKey::SaveHistory {
        let n = number_of(after.test, key);
        assert(reads_as(value, key_limit(key), Ok(n)));
        assert(setting_text(after.test, key) == decimal(n));
    }
}

/// Setting a setting to the value that it shows succeeds and changes nothing.
pub proof fn law_set_shown_value(
    before: ConfigView,
    key: ConfigKey,
    after: ConfigView,
    r: Result<(), Error>,
)
    requires
        set_result(before, key_name(key), setting_text(before.test, key), after, r),
    ensures
        r is Ok,
        after == before,
{
    law_every_setting_has_its_name(key);
    if key == ConfigKey::SaveHistory {
        reveal_strlit("true");
        reveal_strlit("false");
        assert("true"@.len() != "false"@.len());
    } else {
        let n = number_of(before.test, key);
        match r {
            Ok(()) => {
                law_written_number_reads_back(
                    n,
                    key_limit(key),
                    Ok::<nat, NumberError>(number_of(after.test, key)),
                );
            },
            Err(Error::Number(e)) => {
                law_written_number_reads_back(n, key_limit(key), Err::<nat, NumberError>(e));
            },
            Err(_) => {},
        }
    }
}

/// A refused change leaves the whole configuration as it was.
pub proof fn law_refused_change_has_no_effect(
    before: ConfigView,
    key: Seq<char>,
    value: Seq<char>,
    after: ConfigView,
    error: Error,
)
    requires
        set_result(before, key, value, after, Err(error)),
    ensures
        after == before,
{
}

/// The parameter that a numeric setting stands for.
pub open spec fn parameter(test: TestConfig, key: ConfigKey) -> int {
    match key {
        ConfigKey::DurationSeconds => test.duration_seconds as int,
        ConfigKey::Concurrency => test.concurrency as int,
        ConfigKey::TimeoutSeconds => test.timeout_seconds as int,
        ConfigKey::ChunkSizeBytes => test.chunk_size_bytes as int,
        ConfigKey::MaxDownloadBytes => test.max_download_bytes as int,
        ConfigKey::MaxUploadBytes => test.max_upload_bytes as int,
        ConfigKey::SaveHistory => if test.save_history {
            1
        } else {
            0
        },
        ConfigKey::LatencyProbeCount => test.latency_probe_count as int,
    }
}

/// Each setting shows the parameter of its name: by a numeral that reads as the number, or by
/// `true` or `false`.
pub proof fn law_setting_shows_its_parameter(test: TestConfig, key: ConfigKey)
    ensures
        key != ConfigKey::SaveHistory ==> all_digits(setting_text(test, key)) && digits_value(
            setting_text(test, key),
        ) == parameter(test, key),
        key == ConfigKey::SaveHistory ==> (setting_text(test, key) == "true"@
            <==> test.save_history) && (setting_text(test, key) == "false"@ <==> !test.save_history),
{
    reveal_strlit("true");
    reveal_strlit("false");
    assert("true"@.len() != "false"@.len());
    lemma_decimal_reads_back(number_of(test, key));
}

/// A change of a numeric setting succeeds exactly when the value is a numeral, with or without a
/// `+`, that the parameter can hold. The parameter is then the number that the digits denote, and
/// all others are as before.
pub proof fn law_change_reaches_its_parameter(
    before: ConfigView,
    key: ConfigKey,
    value: Seq<char>,
    after: ConfigView,
    r: Result<(), Error>,
    other: ConfigKey,
)
    requires
        set_result(before, key_name(key), value, after, r),
        key != ConfigKey::SaveHistory,
        other != key,
    ensures
        r is Ok <==> all_digits(unsigned_part(value)) && digits_value(unsigned_part(value))
            <= key_limit(key),
        r is Ok ==> parameter(after.test, key) == digits_value(unsigned_part(value)),
        parameter(after.test, other) == parameter(before.test, other),
        r is Err ==> after == before && r->Err_0 is Number,
{
    law_every_setting_has_its_name(key);
}

/// A change of the flag succeeds exactly when the value is `true` or `false`, and then sets it so;
/// every other parameter is as before.
pub proof fn law_flag_is_set_by_its_name(
    before: ConfigView,
    value: Seq<char>,
    after: ConfigView,
    r: Result<(), Error>,
    other: ConfigKey,
)
    requires
        set_result(before, key_name(ConfigKey::SaveHistory), value, after, r),
        other != ConfigKey::SaveHistory,
    ensures
        r is Ok <==> value == "true"@ || value == "false"@,
        r is Ok ==> (after.test.save_history <==> value == "true"@),
        r is Err ==> r->Err_0 == Error::Flag && after == before,
        parameter(after.test, other) == parameter(before.test, other),
{
    law_every_setting_has_its_name(ConfigKey::SaveHistory);
    reveal_strlit("true");
    reveal_strlit("false");
    assert("true"@.len() != "false"@.len());
}

/// A name that is not that of a setting is refused, with that name, both for reading and for
/// changing.
pub proof fn law_unknown_names_are_refused(
    before: ConfigView,
    key: String,
    value: String,
    after: ConfigView,
    got: Result<ConfigReply, Error>,
    set: Result<ConfigReply, Error>,
)
    requires
        forall|k: ConfigKey| key@ != #[trigger] key_name(k),
        carried_out(before, ConfigAction::Get { key }, before, got),
        carried_out(before, ConfigAction::Assign { key, value }, after, set),
    ensures
        got matches Err(Error::UnknownKey(name)) && name@ == key@,
        set matches Err(Error::UnknownKey(name)) && name@ == key@,
        after == before,
{
    law_known_names_are_setting_names(key@);
}

/// Only a change that succeeds changes the configuration, and only such a one has it written.
pub proof fn law_only_changes_are_written(
    before: ConfigView,
    action: ConfigAction,
    after: ConfigView,
    r: Result<ConfigReply, Error>,
)
    requires
        carried_out(before, action, after, r),
    ensures
        after != before ==> action is Assign && r is Ok,
        action is Assign && r is Ok <==> r matches Ok(ConfigReply::Saved(_)),
        action is Show ==> r matches Ok(ConfigReply::Whole),
        r is Err ==> after == before,
{
}

/// Reading a setting by its name shows it, and so does reading it after a change: then it shows
/// the number of the value.
pub proof fn law_command_reads_what_it_changed(
    before: ConfigView,
    key: ConfigKey,
    name: String,
    value: String,
    after: ConfigView,
    set: Result<ConfigReply, Error>,
    got: Result<ConfigReply, Error>,
)
    requires
        name@ == key_name(key),
        key != ConfigKey::SaveHistory,
        carried_out(before, ConfigAction::Assign { key: name, value }, after, set),
        set is Ok,
        carried_out(after, ConfigAction::Get { key: name }, after, got),
    ensures
        got matches Ok(ConfigReply::Value(text)) && all_digits(text@) && digits_value(text@)
            == digits_value(unsigned_part(value@)),
{
    law_every_setting_has_its_name(key);
    law_setting_shows_its_parameter(after.test, key);
    let other = if key == ConfigKey::Concurrency {
        ConfigKey::DurationSeconds
    } else {
        ConfigKey::Concurrency
    };
    law_change_reaches_its_parameter(before, key, value@, after, Ok(()), other);
}

/// The message for a change repeats the name and the value as the user typed them.
pub proof fn law_message_repeats_the_change(key: Seq<char>, value: Seq<char>)
    ensures
        made_of(updated_message(key, value), seq!["已更新: "@, key, "="@, value]),
{
    lemma_made_of_four("已更新: "@, key, "="@, value);
}

} // verus!
