//! Configuration of an RTMP client session.

use vstd::prelude::*;
use rml_rtmp::sessions::ClientSessionConfig;

verus! {

/// The settings handed to an RTMP client session, held as plain values.
#[derive(Clone)]
pub struct SessionConfig {
    pub flash_version: String,
    pub playback_buffer_length_ms: u32,
    pub window_ack_size: u32,
    pub chunk_size: u32,
    pub tc_url: Option<String>,
}

/// The view of an optional string.
pub open spec fn opt_str_view(o: Option<String>) -> Option<Seq<char>> {
    match o {
        Some(s) => Some(s@),
        None => None,
    }
}

/// The mathematical model of a client configuration.
pub struct ConfigModel {
    pub flash_version: Seq<char>,
    pub playback_buffer_length_ms: u32,
    pub window_ack_size: u32,
    pub chunk_size: u32,
    pub tc_url: Option<Seq<char>>,
    pub stream_key: Option<Seq<char>>,
}

impl ConfigModel {
    pub open spec fn with_url(self, url: Seq<char>) -> ConfigModel {
        ConfigModel { tc_url: Some(url), ..self }
    }

    pub open spec fn with_chunk_size(self, size: u32) -> ConfigModel {
        ConfigModel { chunk_size: size, ..self }
    }

    pub open spec fn with_stream_key(self, key: Option<Seq<char>>) -> ConfigModel {
        ConfigModel { stream_key: key, ..self }
    }

    pub open spec fn with_playback_buffer_len(self, len: u32) -> ConfigModel {
        ConfigModel { playback_buffer_length_ms: len, ..self }
    }

    pub open spec fn with_window_ack_size(self, size: u32) -> ConfigModel {
        ConfigModel { window_ack_size: size, ..self }
    }

    pub open spec fn with_flash_version(self, version: Seq<char>) -> ConfigModel {
        ConfigModel { flash_version: version, ..self }
    }
}

/// Builds the default session settings of the RTMP crate.
///
/// Trusted: calls `rml_rtmp::sessions::ClientSessionConfig::new` and copies its
/// fields; the crate's source sets the flash version "WIN 23,0,0,207", a 2000 ms
/// playback buffer, a window acknowledgement size of 2,500,000, a chunk size of
/// 4096 and no tcUrl, which is what the contract claims.
#[verifier::external_body]
fn session_config_defaults() -> (c: SessionConfig)
    ensures
        c.flash_version@ == "WIN 23,0,0,207"@,
        c.playback_buffer_length_ms == 2000,
        c.window_ack_size == 2_500_000,
        c.chunk_size == 4096,
        c.tc_url is None,
{
    let c = ClientSessionConfig::new();
    SessionConfig {
        flash_version: c.flash_version,
        playback_buffer_length_ms: c.playback_buffer_length_ms,
        window_ack_size: c.window_ack_size,
        chunk_size: c.chunk_size,
        tc_url: c.tc_url,
    }
}

/// Whether session settings are those of a configuration model.
pub open spec fn settings_agree(c: SessionConfig, m: ConfigModel) -> bool {
    &&& c.flash_version@ == m.flash_version
    &&& c.playback_buffer_length_ms == m.playback_buffer_length_ms
    &&& c.window_ack_size == m.window_ack_size
    &&& c.chunk_size == m.chunk_size
    &&& opt_str_view(c.tc_url) == m.tc_url
}

/// The server an unconfigured client streams to.
pub open spec fn default_server() -> Seq<char> {
    "a.rtmp.youtube.com:1935"@
}

/// The application a client connects to.
pub open spec fn default_app() -> Seq<char> {
    "live2/x"@
}

/// The stream key an unconfigured client publishes with.
pub open spec fn default_stream_key() -> Seq<char> {
    "0kjx-g7uh-82dh-vbqc-ct1p"@
}

/// A client configuration: the session settings and the stream key to publish on.
#[derive(Clone)]
pub struct MyClientSessionConfig {
    pub config: SessionConfig,
    pub stream_key: Option<String>,
}

impl View for MyClientSessionConfig {
    type V = ConfigModel;

    open spec fn view(&self) -> ConfigModel {
        ConfigModel {
            flash_version: self.config.flash_version@,
            playback_buffer_length_ms: self.config.playback_buffer_length_ms,
            window_ack_size: self.config.window_ack_size,
            chunk_size: self.config.chunk_size,
            tc_url: opt_str_view(self.config.tc_url),
            stream_key: self.stream_key_view(),
        }
    }
}

fn clone_opt_string(o: &Option<String>) -> (r: Option<String>)
    ensures
        opt_str_view(r) == opt_str_view(*o),
{
    match o {
        Some(s) => Some(s.clone()),
        None => None,
    }
}

impl MyClientSessionConfig {
    /// The stream key the configuration holds.
    pub open spec fn stream_key_view(&self) -> Option<Seq<char>> {
        opt_str_view(self.stream_key)
    }

    /// The RTMP crate's default session settings and no stream key.
    fn new() -> (res: Self)
        ensures
            res@.flash_version == "WIN 23,0,0,207"@,
            res@.playback_buffer_length_ms == 2000,
            res@.window_ack_size == 2_500_000,
            res@.chunk_size == 4096,
            res@.tc_url is None,
            res@.stream_key is None,
    {
        Self { config: session_config_defaults(), stream_key: None }
    }

    /// The RTMP crate's default session settings, pointed at the default server
    /// with the default stream key.
    pub fn default() -> (res: Self)
        ensures
            res@.flash_version == "WIN 23,0,0,207"@,
            res@.playback_buffer_length_ms == 2000,
            res@.window_ack_size == 2_500_000,
            res@.chunk_size == 4096,
            res@.tc_url == Some(default_server()),
            res@.stream_key == Some(default_stream_key()),
    {
        let mut var = Self::new();
        var.set_url("a.rtmp.youtube.com:1935");
        var.set_stream_key(Some("0kjx-g7uh-82dh-vbqc-ct1p"));
        var
    }

    /// The session settings, the public field `config`.
    pub fn settings(&self) -> (res: &SessionConfig)
        ensures
            settings_agree(*res, self@),
    {
        &self.config
    }

    /// Sets the tcUrl, the address of the server.
    pub fn set_url(&mut self, tc_url: &str)
        ensures
            final(self)@ == old(self)@.with_url(tc_url@),
    {
        self.config.tc_url = Some(tc_url.to_string());
    }

    /// The application to connect to on the server.
    pub fn get_app(&self) -> (res: String)
        ensures
            res@ == default_app(),
    {
        "live2/x".to_string()
    }

    /// The tcUrl, if one is set.
    pub fn get_url(&self) -> (res: Option<String>)
        ensures
            opt_str_view(res) == self@.tc_url,
    {
        clone_opt_string(&self.config.tc_url)
    }

    /// Sets the chunk size the session announces.
    pub fn set_chunk_size(&mut self, chunk_size: u32)
        ensures
            final(self)@ == old(self)@.with_chunk_size(chunk_size),
    {
        self.config.chunk_size = chunk_size;
    }

    /// Sets or clears the stream key.
    pub fn set_stream_key(&mut self, stream_key: Option<&str>)
        ensures
            final(self)@ == old(self)@.with_stream_key(
                match stream_key {
                    Some(k) => Some(k@),
                    None => None,
                },
            ),
    {
        if stream_key.is_some() {
            self.stream_key = Some(stream_key.unwrap().to_string());
        } else {
            self.stream_key = None;
        }
    }

    /// The stream key, if one is set.
    pub fn get_stream_key(&self) -> (res: Option<String>)
        ensures
            opt_str_view(res) == self@.stream_key,
    {
        clone_opt_string(&self.stream_key)
    }

    /// Sets the playback buffer length in milliseconds.
    pub fn set_playback_buffer_len(&mut self, buffer_len: u32)
        ensures
            final(self)@ == old(self)@.with_playback_buffer_len(buffer_len),
    {
        self.config.playback_buffer_length_ms = buffer_len;
    }

    /// Sets the window acknowledgement size.
    pub fn set_window_ack_size(&mut self, window_ack_size: u32)
        ensures
            final(self)@ == old(self)@.with_window_ack_size(window_ack_size),
    {
        self.config.window_ack_size = window_ack_size;
    }

    /// Sets the flash version the client reports.
    pub fn set_flash_version(&mut self, flash_version: &str)
        ensures
            final(self)@ == old(self)@.with_flash_version(flash_version@),
    {
        self.config.flash_version = flash_version.to_string();
    }
}

} // verus!
