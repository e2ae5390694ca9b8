//! Builder for Aeron channel URIs (`aeron:ipc`, `aeron:udp?key=value|...`).

use vstd::prelude::*;
use vstd::string::*;

use crate::text::{decimal, decimal_string, signed_decimal, signed_decimal_string};

verus! {

broadcast use vstd::string::group_string_axioms;

/// A channel parameter as plain text: its key and its value.
pub type ParamText = (Seq<char>, Seq<char>);

/// The fixed scheme prefix of every channel URI: `aeron:`.
pub open spec fn aeron_prefix() -> Seq<char> {
    seq!['a', 'e', 'r', 'o', 'n', ':']
}

/// The character placed before the parameter at position `i`: `?` before the
/// first, `|` before every later one.
pub open spec fn separator(i: int) -> char {
    if i == 0 {
        '?'
    } else {
        '|'
    }
}

/// The text of one parameter at position `i`: separator, key, `=`, value.
pub open spec fn param_segment(i: int, p: ParamText) -> Seq<char> {
    seq![separator(i)] + p.0 + seq!['='] + p.1
}

/// The parameter part of a URI: the segments of all parameters, in order.
pub open spec fn params_text(ps: Seq<ParamText>) -> Seq<char>
    decreases ps.len(),
{
    if ps.len() == 0 {
        Seq::empty()
    } else {
        params_text(ps.drop_last()) + param_segment(ps.len() - 1, ps.last())
    }
}

/// The URI for a media name and a list of parameters.
pub open spec fn channel_uri(media: Seq<char>, ps: Seq<ParamText>) -> Seq<char> {
    aeron_prefix() + media + params_text(ps)
}

/// The media a builder can be made for: `ipc` or `udp`.
pub open spec fn known_media(media: Seq<char>) -> bool {
    media == "ipc"@ || media == "udp"@
}

/// Builder for Aeron channel URIs (`aeron:ipc` or `aeron:udp?key=value|...`).
/// Its media is always `ipc` or `udp`.
pub struct ChannelBuilder {
    media: &'static str,
    params: Vec<(String, String)>,
}

impl View for ChannelBuilder {
    /// The media name and the parameters, in the order they were added.
    type V = (Seq<char>, Seq<ParamText>);

    closed spec fn view(&self) -> (Seq<char>, Seq<ParamText>) {
        (
            self.media@,
            Seq::new(self.params@.len(), |i: int| (self.params@[i].0@, self.params@[i].1@)),
        )
    }
}

impl ChannelBuilder {
    /// Every builder is made for `ipc` or `udp`.
    #[verifier::type_invariant]
    spec fn media_is_known(self) -> bool {
        known_media(self.media@)
    }

    /// Create an IPC (shared memory) channel builder.
    pub fn ipc() -> (r: Self)
        ensures
            r@ == ("ipc"@, Seq::<ParamText>::empty()),
            known_media(r@.0),
    {
        let r = Self { media: "ipc", params: Vec::new() };
        assert(r@.1 =~= Seq::<ParamText>::empty());
        r
    }

    /// Create a UDP channel builder.
    pub fn udp() -> (r: Self)
        ensures
            r@ == ("udp"@, Seq::<ParamText>::empty()),
            known_media(r@.0),
    {
        let r = Self { media: "udp", params: Vec::new() };
        assert(r@.1 =~= Seq::<ParamText>::empty());
        r
    }

    /// Set an arbitrary channel parameter by key and value.
    pub fn param(self, key: &str, value: &str) -> (r: Self)
        ensures
            r@ == (self@.0, self@.1.push((key@, value@))),
            known_media(r@.0),
    {
        proof { use_type_invariant(&self); }
        let ghost before = self@;
        let media = self.media;
        let mut params = self.params;
        params.push((key.to_string(), value.to_string()));
        let b = ChannelBuilder { media, params };
        assert(b@.1 =~= before.1.push((key@, value@)));
        b
    }

    /// Set the endpoint address (e.g., `"localhost:20121"` or `"224.0.1.1:40456"` for multicast).
    pub fn endpoint(self, value: &str) -> (r: Self)
        ensures
            r@ == (self@.0, self@.1.push(("endpoint"@, value@))),
            known_media(r@.0),
    {
        self.param("endpoint", value)
    }

    /// Set the control address of a multi-destination channel.
    pub fn control(self, value: &str) -> (r: Self)
        ensures
            r@ == (self@.0, self@.1.push(("control"@, value@))),
            known_media(r@.0),
    {
        self.param("control", value)
    }

    /// Set the control mode (e.g., `"dynamic"` or `"manual"`).
    pub fn control_mode(self, value: &str) -> (r: Self)
        ensures
            r@ == (self@.0, self@.1.push(("control-mode"@, value@))),
            known_media(r@.0),
    {
        self.param("control-mode", value)
    }

    /// Set the network interface to use.
    pub fn interface(self, value: &str) -> (r: Self)
        ensures
            r@ == (self@.0, self@.1.push(("interface"@, value@))),
            known_media(r@.0),
    {
        self.param("interface", value)
    }

    /// Set the MTU length in bytes.
    pub fn mtu(self, bytes: usize) -> (r: Self)
        ensures
            r@ == (self@.0, self@.1.push(("mtu"@, decimal(bytes as nat)))),
            known_media(r@.0),
    {
        let text = decimal_string(bytes as u64);
        self.param("mtu", text.as_str())
    }

    /// Set the term buffer length in bytes.
    pub fn term_length(self, bytes: usize) -> (r: Self)
        ensures
            r@ == (self@.0, self@.1.push(("term-length"@, decimal(bytes as nat)))),
            known_media(r@.0),
    {
        let text = decimal_string(bytes as u64);
        self.param("term-length", text.as_str())
    }

    /// Set the session ID.
    pub fn session_id(self, id: i32) -> (r: Self)
        ensures
            r@ == (self@.0, self@.1.push(("session-id"@, signed_decimal(id as int)))),
            known_media(r@.0),
    {
        let text = signed_decimal_string(id);
        self.param("session-id", text.as_str())
    }

    /// Set the multicast time-to-live in hops.
    pub fn ttl(self, hops: u8) -> (r: Self)
        ensures
            r@ == (self@.0, self@.1.push(("ttl"@, decimal(hops as nat)))),
            known_media(r@.0),
    {
        let text = decimal_string(hops as u64);
        self.param("ttl", text.as_str())
    }

    /// Set whether the channel is reliable.
    pub fn reliable(self, value: bool) -> (r: Self)
        ensures
            r@ == (self@.0, self@.1.push(("reliable"@, bool_text(value)))),
            known_media(r@.0),
    {
        self.param("reliable", bool_str(value))
    }

    /// Set whether sparse term files are used.
    pub fn sparse(self, value: bool) -> (r: Self)
        ensures
            r@ == (self@.0, self@.1.push(("sparse"@, bool_text(value)))),
            known_media(r@.0),
    {
        self.param("sparse", bool_str(value))
    }

    /// Set the linger timeout in nanoseconds.
    pub fn linger(self, ns: u64) -> (r: Self)
        ensures
            r@ == (self@.0, self@.1.push(("linger"@, decimal(ns as nat)))),
            known_media(r@.0),
    {
        let text = decimal_string(ns);
        self.param("linger", text.as_str())
    }

    /// Set whether subscribers are tethered.
    pub fn tether(self, value: bool) -> (r: Self)
        ensures
            r@ == (self@.0, self@.1.push(("tether"@, bool_text(value)))),
            known_media(r@.0),
    {
        self.param("tether", bool_str(value))
    }

    /// Set whether a subscriber rejoins after a loss.
    pub fn rejoin(self, value: bool) -> (r: Self)
        ensures
            r@ == (self@.0, self@.1.push(("rejoin"@, bool_text(value)))),
            known_media(r@.0),
    {
        self.param("rejoin", bool_str(value))
    }

    /// Set the flow control strategy.
    pub fn flow_control(self, value: &str) -> (r: Self)
        ensures
            r@ == (self@.0, self@.1.push(("fc"@, value@))),
            known_media(r@.0),
    {
        self.param("fc", value)
    }

    /// Set the congestion control strategy.
    pub fn congestion_control(self, value: &str) -> (r: Self)
        ensures
            r@ == (self@.0, self@.1.push(("cc"@, value@))),
            known_media(r@.0),
    {
        self.param("cc", value)
    }

    /// Set the socket send buffer length in bytes.
    pub fn socket_sndbuf(self, bytes: usize) -> (r: Self)
        ensures
            r@ == (self@.0, self@.1.push(("so-sndbuf"@, decimal(bytes as nat)))),
            known_media(r@.0),
    {
        let text = decimal_string(bytes as u64);
        self.param("so-sndbuf", text.as_str())
    }

    /// Set the socket receive buffer length in bytes.
    pub fn socket_rcvbuf(self, bytes: usize) -> (r: Self)
        ensures
            r@ == (self@.0, self@.1.push(("so-rcvbuf"@, decimal(bytes as nat)))),
            known_media(r@.0),
    {
        let text = decimal_string(bytes as u64);
        self.param("so-rcvbuf", text.as_str())
    }

    /// Set the receiver window length in bytes.
    pub fn receiver_window(self, bytes: usize) -> (r: Self)
        ensures
            r@ == (self@.0, self@.1.push(("rcv-wnd"@, decimal(bytes as nat)))),
            known_media(r@.0),
    {
        let text = decimal_string(bytes as u64);
        self.param("rcv-wnd", text.as_str())
    }

    /// Build the channel URI string.
    pub fn build(&self) -> (r: String)
        ensures
            r@ == channel_uri(self@.0, self@.1),
            known_media(self@.0),
            r@.contains('?') <==> self@.1.len() > 0,
    {
        proof {
            use_type_invariant(self);
            lemma_query_iff_params(self@.0, self@.1);
        }
        proof { reveal_strlit("aeron:"); }
        let mut uri = "aeron:".to_string();
        uri.append(self.media);
        let n: usize = self.params.len();
        let ghost ps = self@.1;
        let mut i: usize = 0;
        while i < n
            invariant
                n == self.params@.len(),
                ps == self@.1,
                i <= n,
                uri@ == aeron_prefix() + self@.0 + params_text(ps.take(i as int)),
            decreases n - i,
        {
            let (key, value) = &self.params[i];
            if i == 0 {
                proof { reveal_strlit("?"); }
                uri.append("?");
            } else {
                proof { reveal_strlit("|"); }
                uri.append("|");
            }
            uri.append(key.as_str());
            proof { reveal_strlit("="); }
            uri.append("=");
            uri.append(value.as_str());
            proof {
                assert(ps.take(i + 1).drop_last() =~= ps.take(i as int));
                assert(ps.take(i + 1).last() == ps[i as int]);
            }
            i = i + 1;
        }
        assert(ps.take(n as int) =~= ps);
        uri
    }
}

/// The text of a boolean parameter value.
pub open spec fn bool_text(value: bool) -> Seq<char> {
    if value {
        "true"@
    } else {
        "false"@
    }
}

fn bool_str(value: bool) -> (r: &'static str)
    ensures
        r@ == bool_text(value),
{
    if value {
        "true"
    } else {
        "false"
    }
}

/// Adding a parameter appends exactly its segment (`?key=value` when it is the
/// first parameter, `|key=value` after others) to the URI: the URI built before
/// the parameter was added stays, unchanged, as the prefix of the new one.
pub proof fn lemma_param_extends_uri(media: Seq<char>, ps: Seq<ParamText>, p: ParamText)
    ensures
        channel_uri(media, ps.push(p)) == channel_uri(media, ps) + param_segment(
            ps.len() as int,
            p,
        ),
{
    assert(ps.push(p).drop_last() =~= ps);
    assert(channel_uri(media, ps.push(p)) =~= channel_uri(media, ps) + param_segment(
        ps.len() as int,
        p,
    ));
}

/// Every URI starts with `aeron:` and the media name; a builder without
/// parameters builds exactly that.
pub proof fn lemma_uri_starts_with_media(media: Seq<char>, ps: Seq<ParamText>)
    ensures
        channel_uri(media, ps).subrange(0, 6 + media.len() as int) == aeron_prefix() + media,
        channel_uri(media, Seq::<ParamText>::empty()) == aeron_prefix() + media,
{
    assert(channel_uri(media, ps).subrange(0, 6 + media.len() as int) =~= aeron_prefix() + media);
    assert(channel_uri(media, Seq::<ParamText>::empty()) =~= aeron_prefix() + media);
}

proof fn lemma_params_text_starts_with_query(ps: Seq<ParamText>)
    requires
        ps.len() > 0,
    ensures
        params_text(ps).len() > 0,
        params_text(ps)[0] == '?',
    decreases ps.len(),
{
    let init = ps.drop_last();
    if init.len() > 0 {
        lemma_params_text_starts_with_query(init);
    } else {
        assert(params_text(init) =~= Seq::<char>::empty());
    }
}

/// A URI holds a `?` exactly when its builder holds a parameter: `?` occurs in
/// neither `aeron:` nor the media name, and it opens the first parameter.
pub proof fn lemma_query_iff_params(media: Seq<char>, ps: Seq<ParamText>)
    requires
        known_media(media),
    ensures
        channel_uri(media, ps).contains('?') <==> ps.len() > 0,
{
    reveal_strlit("ipc");
    reveal_strlit("udp");
    let uri = channel_uri(media, ps);
    let head = aeron_prefix() + media;
    assert(uri =~= head + params_text(ps));
    if ps.len() > 0 {
        lemma_params_text_starts_with_query(ps);
        assert(uri[head.len() as int] == '?');
    } else {
        assert(params_text(ps) =~= Seq::<char>::empty());
        assert(uri =~= head);
        assert forall|i: int| 0 <= i < uri.len() implies uri[i] != '?' by {
            if i >= 6 {
                assert(uri[i] == media[i - 6]);
            }
        }
    }
}

/// For any builder, adding a parameter appends to its URI `|key=value` when the
/// URI already holds a `?`, and `?key=value` when it does not; what was built
/// before is kept as the prefix. Every typed setter adds its parameter this way.
pub proof fn lemma_param_appends_after_query_or_bar(media: Seq<char>, ps: Seq<ParamText>, p: ParamText)
    requires
        known_media(media),
    ensures
        channel_uri(media, ps.push(p)) == channel_uri(media, ps) + seq![
            if channel_uri(media, ps).contains('?') { '|' } else { '?' },
        ] + p.0 + seq!['='] + p.1,
{
    lemma_param_extends_uri(media, ps, p);
    lemma_query_iff_params(media, ps);
    assert(channel_uri(media, ps.push(p)) =~= channel_uri(media, ps) + seq![
        if channel_uri(media, ps).contains('?') { '|' } else { '?' },
    ] + p.0 + seq!['='] + p.1);
}

} // verus!
