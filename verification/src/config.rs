//! The gateway's configuration, and the encoding parameters that annotate
//! requests to the watermarking backend.

use vstd::prelude::*;
use crate::headers::{Entries, HeaderMap};
use crate::message::text_view;

verus! {

/// What a deployment fixes: the names of its backends and stores, the host
/// of the watermarking service, the share of segments to watermark and the
/// size above which a segment is left alone.
#[derive(Clone, Debug, PartialEq, Eq)]
pub struct GatewayConfig {
    /// The backend that serves the content as it is.
    pub primary_backend: String,
    /// The backend that watermarks segments.
    pub watermark_backend: String,
    /// The store that holds the master secret.
    pub secrets_store: String,
    /// The store that holds the client API key.
    pub api_keys_store: String,
    /// The store that holds the encoding parameters.
    pub encoding_store: String,
    /// The `Host` of requests to the watermarking backend.
    pub watermark_host: String,
    /// The share of segment requests to watermark, in parts per million.
    pub watermark_per_million: u32,
    /// The largest segment, in bytes, that is sent to be watermarked.
    pub max_segment_bytes: usize,
}

/// The mathematical model of `GatewayConfig`.
pub struct ConfigView {
    pub primary_backend: Seq<char>,
    pub watermark_backend: Seq<char>,
    pub secrets_store: Seq<char>,
    pub api_keys_store: Seq<char>,
    pub encoding_store: Seq<char>,
    pub watermark_host: Seq<char>,
    pub watermark_per_million: u32,
    pub max_segment_bytes: usize,
}

impl View for GatewayConfig {
    type V = ConfigView;

    open spec fn view(&self) -> ConfigView {
        ConfigView {
            primary_backend: self.primary_backend@,
            watermark_backend: self.watermark_backend@,
            secrets_store: self.secrets_store@,
            api_keys_store: self.api_keys_store@,
            encoding_store: self.encoding_store@,
            watermark_host: self.watermark_host@,
            watermark_per_million: self.watermark_per_million,
            max_segment_bytes: self.max_segment_bytes,
        }
    }
}

/// The configuration of the reference deployment.
pub open spec fn reference_config() -> ConfigView {
    ConfigView {
        primary_backend: "origin_1"@,
        watermark_backend: "origin_2"@,
        secrets_store: "secrets"@,
        api_keys_store: "api_keys"@,
        encoding_store: "watermarking_config"@,
        watermark_host: "api.stegawave.com"@,
        watermark_per_million: 10_000,
        max_segment_bytes: 512_000,
    }
}

impl GatewayConfig {
    /// The reference deployment: one segment request in a hundred is
    /// watermarked, and segments above 500 KiB are left alone.
    pub fn reference() -> (out: Self)
        ensures
            out@ == reference_config(),
    {
        GatewayConfig {
            primary_backend: "origin_1".to_owned(),
            watermark_backend: "origin_2".to_owned(),
            secrets_store: "secrets".to_owned(),
            api_keys_store: "api_keys".to_owned(),
            encoding_store: "watermarking_config".to_owned(),
            watermark_host: "api.stegawave.com".to_owned(),
            watermark_per_million: 10_000,
            max_segment_bytes: 512_000,
        }
    }
}

/// The four encoding parameters, in the order in which they are looked up.
#[derive(Clone, Copy, Debug, PartialEq, Eq, Structural)]
pub enum EncodingField {
    AacProfile,
    SampleRate,
    Channels,
    TrackId,
}

/// The name under which a parameter is stored, and of the header that
/// carries it.
pub open spec fn field_name(field: EncodingField) -> Seq<char> {
    match field {
        EncodingField::AacProfile => "FMP4_AAC_PROFILE"@,
        EncodingField::SampleRate => "FMP4_SAMPLE_RATE"@,
        EncodingField::Channels => "FMP4_CHANNELS"@,
        EncodingField::TrackId => "FMP4_TRACK_ID"@,
    }
}

/// The parameter that is looked up after `field`.
pub open spec fn field_after(field: EncodingField) -> Option<EncodingField> {
    match field {
        EncodingField::AacProfile => Some(EncodingField::SampleRate),
        EncodingField::SampleRate => Some(EncodingField::Channels),
        EncodingField::Channels => Some(EncodingField::TrackId),
        EncodingField::TrackId => None,
    }
}

impl EncodingField {
    /// The name under which the parameter is stored.
    pub fn name(&self) -> (name: &'static str)
        ensures
            name@ == field_name(*self),
    {
        match self {
            EncodingField::AacProfile => "FMP4_AAC_PROFILE",
            EncodingField::SampleRate => "FMP4_SAMPLE_RATE",
            EncodingField::Channels => "FMP4_CHANNELS",
            EncodingField::TrackId => "FMP4_TRACK_ID",
        }
    }

    /// The parameter that is looked up next, if any is left.
    pub fn next(&self) -> (next: Option<EncodingField>)
        ensures
            next == field_after(*self),
    {
        match self {
            EncodingField::AacProfile => Some(EncodingField::SampleRate),
            EncodingField::SampleRate => Some(EncodingField::Channels),
            EncodingField::Channels => Some(EncodingField::TrackId),
            EncodingField::TrackId => None,
        }
    }
}

/// The encoding parameters that the store holds. A parameter that the store
/// lacks is absent here and gets no default.
#[derive(Clone, Debug, PartialEq, Eq)]
pub struct EncodingConfig {
    pub aac_profile: Option<String>,
    pub sample_rate: Option<String>,
    pub channels: Option<String>,
    pub track_id: Option<String>,
}

/// The mathematical model of `EncodingConfig`.
pub struct EncodingView {
    pub aac_profile: Option<Seq<char>>,
    pub sample_rate: Option<Seq<char>>,
    pub channels: Option<Seq<char>>,
    pub track_id: Option<Seq<char>>,
}

impl View for EncodingConfig {
    type V = EncodingView;

    open spec fn view(&self) -> EncodingView {
        EncodingView {
            aac_profile: text_view(self.aac_profile),
            sample_rate: text_view(self.sample_rate),
            channels: text_view(self.channels),
            track_id: text_view(self.track_id),
        }
    }
}

/// No parameter is present.
pub open spec fn no_encoding() -> EncodingView {
    EncodingView { aac_profile: None, sample_rate: None, channels: None, track_id: None }
}

/// `encoding` with `field` set to `value`.
pub open spec fn encoding_with(
    encoding: EncodingView,
    field: EncodingField,
    value: Seq<char>,
) -> EncodingView {
    match field {
        EncodingField::AacProfile => EncodingView { aac_profile: Some(value), ..encoding },
        EncodingField::SampleRate => EncodingView { sample_rate: Some(value), ..encoding },
        EncodingField::Channels => EncodingView { channels: Some(value), ..encoding },
        EncodingField::TrackId => EncodingView { track_id: Some(value), ..encoding },
    }
}

/// The header for one parameter: none where the parameter is absent.
pub open spec fn optional_header(name: Seq<char>, value: Option<Seq<char>>) -> Entries {
    match value {
        Some(v) => seq![(name, v)],
        None => Seq::empty(),
    }
}

/// The headers that carry the parameters that are present, in the order of
/// the fields.
pub open spec fn encoding_headers(encoding: EncodingView) -> Entries {
    optional_header(field_name(EncodingField::AacProfile), encoding.aac_profile) + optional_header(
        field_name(EncodingField::SampleRate),
        encoding.sample_rate,
    ) + optional_header(field_name(EncodingField::Channels), encoding.channels) + optional_header(
        field_name(EncodingField::TrackId),
        encoding.track_id,
    )
}

impl EncodingConfig {
    /// No parameter is present.
    pub fn new() -> (out: Self)
        ensures
            out@ == no_encoding(),
    {
        EncodingConfig { aac_profile: None, sample_rate: None, channels: None, track_id: None }
    }

    /// Sets `field` to `value`.
    pub fn with(self, field: EncodingField, value: String) -> (out: Self)
        ensures
            out@ == encoding_with(self@, field, value@),
    {
        let mut out = self;
        match field {
            EncodingField::AacProfile => {
                out.aac_profile = Some(value);
            },
            EncodingField::SampleRate => {
                out.sample_rate = Some(value);
            },
            EncodingField::Channels => {
                out.channels = Some(value);
            },
            EncodingField::TrackId => {
                out.track_id = Some(value);
            },
        }
        out
    }

    /// Appends one header for each parameter that is present.
    pub fn append_to(&self, headers: &mut HeaderMap)
        ensures
            final(headers)@ == old(headers)@ + encoding_headers(self@),
    {
        let ghost start = headers@;
        if let Some(value) = &self.aac_profile {
            headers.append(EncodingField::AacProfile.name(), value.as_str());
        }
        let ghost one = headers@;
        assert(one =~= start + optional_header(
            field_name(EncodingField::AacProfile),
            self@.aac_profile,
        ));
        if let Some(value) = &self.sample_rate {
            headers.append(EncodingField::SampleRate.name(), value.as_str());
        }
        let ghost two = headers@;
        assert(two =~= one + optional_header(
            field_name(EncodingField::SampleRate),
            self@.sample_rate,
        ));
        if let Some(value) = &self.channels {
            headers.append(EncodingField::Channels.name(), value.as_str());
        }
        let ghost three = headers@;
        assert(three =~= two + optional_header(
            field_name(EncodingField::Channels),
            self@.channels,
        ));
        if let Some(value) = &self.track_id {
            headers.append(EncodingField::TrackId.name(), value.as_str());
        }
        assert(headers@ =~= three + optional_header(
            field_name(EncodingField::TrackId),
            self@.track_id,
        ));
        assert(headers@ =~= start + encoding_headers(self@));
    }
}

} // verus!
