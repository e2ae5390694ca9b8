use aeron_glide::ChannelBuilder;

#[test]
fn test_channel_builder_ipc() {
    assert_eq!(ChannelBuilder::ipc().build(), "aeron:ipc");
}

#[test]
fn test_channel_builder_udp() {
    let uri = ChannelBuilder::udp().endpoint("localhost:20121").build();
    assert_eq!(uri, "aeron:udp?endpoint=localhost:20121");
}

#[test]
fn test_channel_builder_multiple_params() {
    let uri = ChannelBuilder::udp()
        .endpoint("localhost:20121")
        .mtu(8192)
        .term_length(65536)
        .reliable(true)
        .build();
    assert_eq!(
        uri,
        "aeron:udp?endpoint=localhost:20121|mtu=8192|term-length=65536|reliable=true"
    );
}

#[test]
fn test_channel_builder_multicast() {
    let uri = ChannelBuilder::udp()
        .endpoint("224.0.1.1:40456")
        .interface("localhost")
        .ttl(4)
        .build();
    assert_eq!(
        uri,
        "aeron:udp?endpoint=224.0.1.1:40456|interface=localhost|ttl=4"
    );
}

#[test]
fn test_channel_builder_mdc() {
    let uri = ChannelBuilder::udp()
        .control("localhost:40456")
        .control_mode("dynamic")
        .build();
    assert_eq!(
        uri,
        "aeron:udp?control=localhost:40456|control-mode=dynamic"
    );
}

#[test]
fn test_channel_builder_custom_param() {
    let uri = ChannelBuilder::ipc().param("alias", "my-channel").build();
    assert_eq!(uri, "aeron:ipc?alias=my-channel");
}

#[test]
fn udp_without_params_is_bare_media() {
    assert_eq!(ChannelBuilder::udp().build(), "aeron:udp");
}

#[test]
fn every_typed_setter_writes_its_key() {
    let uri = ChannelBuilder::udp()
        .session_id(-42)
        .sparse(false)
        .linger(0)
        .tether(true)
        .rejoin(false)
        .flow_control("min")
        .congestion_control("cubic")
        .socket_sndbuf(131072)
        .socket_rcvbuf(2097152)
        .receiver_window(128)
        .build();
    assert_eq!(
        uri,
        "aeron:udp?session-id=-42|sparse=false|linger=0|tether=true|rejoin=false|fc=min|cc=cubic|so-sndbuf=131072|so-rcvbuf=2097152|rcv-wnd=128"
    );
}

#[test]
fn integer_parameters_render_extremes() {
    let uri = ChannelBuilder::ipc()
        .session_id(i32::MIN)
        .session_id(i32::MAX)
        .ttl(255)
        .linger(u64::MAX)
        .mtu(0)
        .build();
    assert_eq!(
        uri,
        "aeron:ipc?session-id=-2147483648|session-id=2147483647|ttl=255|linger=18446744073709551615|mtu=0"
    );
}

#[test]
fn adding_a_parameter_extends_the_previous_uri() {
    let before = ChannelBuilder::udp().endpoint("localhost:1").build();
    let after = ChannelBuilder::udp().endpoint("localhost:1").param("alias", "x").build();
    assert_eq!(after, format!("{}|alias=x", before));
    let first = ChannelBuilder::udp().param("alias", "x").build();
    assert_eq!(first, format!("{}?alias=x", ChannelBuilder::udp().build()));
}

#[test]
fn parameters_keep_the_order_they_were_set_in() {
    let uri = ChannelBuilder::ipc().param("b", "2").param("a", "1").param("b", "3").build();
    assert_eq!(uri, "aeron:ipc?b=2|a=1|b=3");
}

#[test]
fn empty_key_and_value_are_kept() {
    assert_eq!(ChannelBuilder::ipc().param("", "").build(), "aeron:ipc?=");
}

#[test]
fn documented_udp_example() {
    let udp = ChannelBuilder::udp().endpoint("localhost:20121").mtu(8192).build();
    assert_eq!(udp, "aeron:udp?endpoint=localhost:20121|mtu=8192");
}

#[test]
fn next_parameter_separator_follows_the_query() {
    let b = ChannelBuilder::udp();
    let s = b.build();
    assert!(!s.contains('?'));
    let b = b.control_mode("manual");
    let t = b.build();
    assert_eq!(t, format!("{}?control-mode=manual", s));
    let u = b.session_id(-5).build();
    assert_eq!(u, format!("{}|session-id=-5", t));
}
