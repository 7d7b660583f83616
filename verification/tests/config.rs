use rtmp_stream_lib::rtmp_clients::MyClientSessionConfig;

#[test]
fn default_points_at_the_default_server_with_the_default_key() {
    let config = MyClientSessionConfig::default();
    assert_eq!(config.get_url(), Some("a.rtmp.youtube.com:1935".to_string()));
    assert_eq!(config.get_stream_key(), Some("0kjx-g7uh-82dh-vbqc-ct1p".to_string()));
    assert_eq!(config.get_app(), "live2/x".to_string());
}

#[test]
fn default_keeps_the_session_defaults_of_the_rtmp_crate() {
    let config = MyClientSessionConfig::default();
    assert_eq!(config.config.flash_version, "WIN 23,0,0,207".to_string());
    assert_eq!(config.config.playback_buffer_length_ms, 2000);
    assert_eq!(config.config.window_ack_size, 2_500_000);
    assert_eq!(config.config.chunk_size, 4096);
}

#[test]
fn url_reads_back_as_written() {
    let mut config = MyClientSessionConfig::default();
    config.set_url("rtmp.example.org:1935");
    assert_eq!(config.get_url(), Some("rtmp.example.org:1935".to_string()));
    assert_eq!(config.get_stream_key(), Some("0kjx-g7uh-82dh-vbqc-ct1p".to_string()));
}

#[test]
fn later_url_wins() {
    let mut config = MyClientSessionConfig::default();
    config.set_url("first:1");
    config.set_url("second:2");
    assert_eq!(config.get_url(), Some("second:2".to_string()));
}

#[test]
fn stream_key_can_be_set_and_cleared() {
    let mut config = MyClientSessionConfig::default();
    config.set_stream_key(Some("abcd"));
    assert_eq!(config.get_stream_key(), Some("abcd".to_string()));
    config.set_stream_key(None);
    assert_eq!(config.get_stream_key(), None);
    assert_eq!(config.get_url(), Some("a.rtmp.youtube.com:1935".to_string()));
}

#[test]
fn numeric_settings_read_back_as_written() {
    let mut config = MyClientSessionConfig::default();
    config.set_chunk_size(4096 * 2);
    config.set_playback_buffer_len(500);
    config.set_window_ack_size(1_000_000);
    assert_eq!(config.config.chunk_size, 8192);
    assert_eq!(config.config.playback_buffer_length_ms, 500);
    assert_eq!(config.config.window_ack_size, 1_000_000);
    assert_eq!(config.config.flash_version, "WIN 23,0,0,207".to_string());
}

#[test]
fn flash_version_reads_back_as_written() {
    let mut config = MyClientSessionConfig::default();
    config.set_flash_version("test");
    assert_eq!(config.config.flash_version, "test".to_string());
    assert_eq!(config.config.chunk_size, 4096);
}

#[test]
fn settings_do_not_depend_on_the_order_they_are_written_in() {
    let mut a = MyClientSessionConfig::default();
    a.set_url("host:1");
    a.set_stream_key(Some("key"));
    let mut b = MyClientSessionConfig::default();
    b.set_stream_key(Some("key"));
    b.set_url("host:1");
    assert_eq!(a.get_url(), b.get_url());
    assert_eq!(a.get_stream_key(), b.get_stream_key());
}
