use vstd::prelude::*;

use crate::config::{ApiConfig, QueryView};
use crate::error::{key_name, ConfigError, ConfigKey};
use crate::json::{
    json_as_text, json_as_u64, json_member, json_member_of, json_parse_of, json_str_of, json_u64_of,
    parse_json,
};

verus! {

/// A page size that a descriptor can hold: positive and within `usize`.
pub open spec fn valid_page_size(p: u64) -> bool {
    0 < p && p <= usize::MAX
}

/// The first key, in document order, whose value is absent or unusable; each
/// flag tells whether a usable string was found under that key.
pub open spec fn first_problem(
    base_url: bool,
    api_key: bool,
    mpan: bool,
    serial: bool,
    page_size: Option<u64>,
    period_from: bool,
    period_to: bool,
) -> Option<ConfigKey> {
    if !base_url {
        Some(ConfigKey::BaseUrl)
    } else if !api_key {
        Some(ConfigKey::ApiKey)
    } else if !mpan {
        Some(ConfigKey::Mpan)
    } else if !serial {
        Some(ConfigKey::Serial)
    } else if !(page_size matches Some(p) && valid_page_size(p)) {
        Some(ConfigKey::PageSize)
    } else if !period_from {
        Some(ConfigKey::PeriodFrom)
    } else if !period_to {
        Some(ConfigKey::PeriodTo)
    } else {
        None
    }
}

/// A configuration without a meter point is rejected: whatever the other keys
/// hold, the first unusable key is `mpan` or one before it, so no descriptor is
/// built and no request can follow.
pub proof fn lemma_missing_mpan_rejected(
    base_url: bool,
    api_key: bool,
    serial: bool,
    page_size: Option<u64>,
    period_from: bool,
    period_to: bool,
)
    ensures
        ({
            let p = first_problem(base_url, api_key, false, serial, page_size, period_from, period_to);
            p == Some(ConfigKey::BaseUrl) || p == Some(ConfigKey::ApiKey) || p == Some(ConfigKey::Mpan)
        }),
        base_url && api_key ==> first_problem(
            base_url,
            api_key,
            false,
            serial,
            page_size,
            period_from,
            period_to,
        ) == Some(ConfigKey::Mpan),
{
}

/// The string under `key` of a document, if there is one.
pub open spec fn text_at(doc: serde_json::Value, key: ConfigKey) -> Option<Seq<char>> {
    match json_member_of(doc, key_name(key)) {
        Some(v) => json_str_of(v),
        None => None,
    }
}

/// The integer under `page_size` of a document, if there is one within `u64`.
pub open spec fn page_size_at(doc: serde_json::Value) -> Option<u64> {
    match json_member_of(doc, key_name(ConfigKey::PageSize)) {
        Some(v) => json_u64_of(v),
        None => None,
    }
}

/// The first key of a configuration document that is absent or has the wrong type.
pub open spec fn doc_problem(doc: serde_json::Value) -> Option<ConfigKey> {
    first_problem(
        text_at(doc, ConfigKey::BaseUrl) is Some,
        text_at(doc, ConfigKey::ApiKey) is Some,
        text_at(doc, ConfigKey::Mpan) is Some,
        text_at(doc, ConfigKey::Serial) is Some,
        page_size_at(doc),
        text_at(doc, ConfigKey::PeriodFrom) is Some,
        text_at(doc, ConfigKey::PeriodTo) is Some,
    )
}

/// The query fields that a configuration document describes.
pub open spec fn doc_query(doc: serde_json::Value) -> QueryView {
    QueryView {
        base_url: text_at(doc, ConfigKey::BaseUrl)->0,
        api_key: text_at(doc, ConfigKey::ApiKey)->0,
        mpan: text_at(doc, ConfigKey::Mpan)->0,
        serial: text_at(doc, ConfigKey::Serial)->0,
        page_size: page_size_at(doc)->0 as nat,
        period_from: text_at(doc, ConfigKey::PeriodFrom)->0,
        period_to: text_at(doc, ConfigKey::PeriodTo)->0,
    }
}

/// Builds the descriptor from the values found under each key (`None` where a key
/// is absent or its value has the wrong type). Fails on the first unusable key.
pub fn config_from_fields(
    base_url: Option<String>,
    api_key: Option<String>,
    mpan: Option<String>,
    serial: Option<String>,
    page_size: Option<u64>,
    period_from: Option<String>,
    period_to: Option<String>,
) -> (r: Result<ApiConfig, ConfigError>)
    ensures
        match first_problem(
            base_url is Some,
            api_key is Some,
            mpan is Some,
            serial is Some,
            page_size,
            period_from is Some,
            period_to is Some,
        ) {
            Some(k) => r == Err::<ApiConfig, ConfigError>(ConfigError::Missing(k)),
            None => r matches Ok(c) && c.wf() && !c.is_cached() && c@ == (QueryView {
                base_url: base_url->0@,
                api_key: api_key->0@,
                mpan: mpan->0@,
                serial: serial->0@,
                page_size: page_size->0 as nat,
                period_from: period_from->0@,
                period_to: period_to->0@,
            }),
        },
{
    let base_url = match base_url {
        Some(v) => v,
        None => return Err(ConfigError::Missing(ConfigKey::BaseUrl)),
    };
    let api_key = match api_key {
        Some(v) => v,
        None => return Err(ConfigError::Missing(ConfigKey::ApiKey)),
    };
    let mpan = match mpan {
        Some(v) => v,
        None => return Err(ConfigError::Missing(ConfigKey::Mpan)),
    };
    let serial = match serial {
        Some(v) => v,
        None => return Err(ConfigError::Missing(ConfigKey::Serial)),
    };
    let page_size: usize = match page_size {
        Some(p) => {
            if p == 0 || p > usize::MAX as u64 {
                return Err(ConfigError::Missing(ConfigKey::PageSize));
            }
            p as usize
        },
        None => return Err(ConfigError::Missing(ConfigKey::PageSize)),
    };
    let period_from = match period_from {
        Some(v) => v,
        None => return Err(ConfigError::Missing(ConfigKey::PeriodFrom)),
    };
    let period_to = match period_to {
        Some(v) => v,
        None => return Err(ConfigError::Missing(ConfigKey::PeriodTo)),
    };
    Ok(
        ApiConfig::new(
            base_url.as_str(),
            api_key.as_str(),
            mpan.as_str(),
            serial.as_str(),
            page_size,
            period_from.as_str(),
            period_to.as_str(),
        ),
    )
}

/// The text under `key`, if the document has a string there.
fn text_field(doc: &serde_json::Value, key: ConfigKey) -> (r: Option<String>)
    ensures
        r is Some <==> text_at(*doc, key) is Some,
        r matches Some(t) ==> text_at(*doc, key) == Some(t@),
{
    match json_member(doc, key.name()) {
        Some(v) => json_as_text(v),
        None => None,
    }
}

/// Reads the descriptor out of a parsed configuration document. Every key is
/// required; a failure names a key that is absent or holds the wrong type.
pub fn config_from_json(doc: &serde_json::Value) -> (r: Result<ApiConfig, ConfigError>)
    ensures
        match doc_problem(*doc) {
            Some(k) => r == Err::<ApiConfig, ConfigError>(ConfigError::Missing(k)),
            None => r matches Ok(c) && c.wf() && !c.is_cached() && c@ == doc_query(*doc),
        },
{
    let page_size = match json_member(doc, ConfigKey::PageSize.name()) {
        Some(v) => json_as_u64(v),
        None => None,
    };
    config_from_fields(
        text_field(doc, ConfigKey::BaseUrl),
        text_field(doc, ConfigKey::ApiKey),
        text_field(doc, ConfigKey::Mpan),
        text_field(doc, ConfigKey::Serial),
        page_size,
        text_field(doc, ConfigKey::PeriodFrom),
        text_field(doc, ConfigKey::PeriodTo),
    )
}

/// Reads the descriptor out of the text of a configuration file.
pub fn parse_config(text: &str) -> (r: Result<ApiConfig, ConfigError>)
    ensures
        match json_parse_of(text@) {
            None => r == Err::<ApiConfig, ConfigError>(ConfigError::Malformed),
            Some(doc) => match doc_problem(doc) {
                Some(k) => r == Err::<ApiConfig, ConfigError>(ConfigError::Missing(k)),
                None => r matches Ok(c) && c.wf() && !c.is_cached() && c@ == doc_query(doc),
            },
        },
{
    match parse_json(text) {
        Ok(doc) => config_from_json(&doc),
        Err(_) => Err(ConfigError::Malformed),
    }
}

} // verus!
