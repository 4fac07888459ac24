//! The socket options: at which level and under which name nanomsg
//! knows each, the value handed over, and the words of a failure.

use vstd::prelude::*;
use crate::constants::{
    NN_IPV4ONLY, NN_LINGER, NN_RCVBUF, NN_RCVPRIO, NN_RCVTIMEO, NN_RECONNECT_IVL,
    NN_RECONNECT_IVL_MAX, NN_REQ, NN_REQ_RESEND_IVL, NN_SNDBUF, NN_SNDPRIO, NN_SNDTIMEO,
    NN_SOCKET_NAME, NN_SOL_SOCKET, NN_SUB, NN_SUB_SUBSCRIBE, NN_SUB_UNSUBSCRIBE, NN_SURVEYOR,
    NN_SURVEYOR_DEADLINE, NN_TCP, NN_TCP_NODELAY,
};
use crate::duration::{iso_duration_text, whole_millis, Duration};
use crate::format::{bool_text, decimal_text, push_bool, push_decimal};
use crate::protocol::{protocol_number, Protocol};

verus! {

/// An option of a socket together with the value to give it.
#[derive(Debug, Clone)]
pub enum SocketOption {
    Linger(Duration),
    SendBufferSize(isize),
    ReceiveBufferSize(isize),
    SendTimeout(Duration),
    ReceiveTimeout(Duration),
    ReconnectInterval(Duration),
    MaxReconnectInterval(Duration),
    SendPriority(u8),
    ReceivePriority(u8),
    Ipv4Only(bool),
    SocketName(String),
    TcpNoDelay(bool),
    Subscribe(String),
    Unsubscribe(String),
    SurveyDeadline(Duration),
    RequestResendInterval(Duration),
}

/// The value that `nn_setsockopt` is given: a C `int`, or the bytes of
/// a text (its length is the text's length, without a terminator).
#[derive(Debug, Clone)]
pub enum OptionValue {
    Int(i32),
    Text(String),
}

/// The level at which nanomsg knows an option.
pub open spec fn option_level(opt: SocketOption) -> i32 {
    match opt {
        SocketOption::TcpNoDelay(_) => NN_TCP,
        SocketOption::Subscribe(_) => NN_SUB,
        SocketOption::Unsubscribe(_) => NN_SUB,
        SocketOption::SurveyDeadline(_) => NN_SURVEYOR,
        SocketOption::RequestResendInterval(_) => NN_REQ,
        _ => NN_SOL_SOCKET,
    }
}

/// The name under which nanomsg knows an option at its level.
pub open spec fn option_name(opt: SocketOption) -> i32 {
    match opt {
        SocketOption::Linger(_) => NN_LINGER,
        SocketOption::SendBufferSize(_) => NN_SNDBUF,
        SocketOption::ReceiveBufferSize(_) => NN_RCVBUF,
        SocketOption::SendTimeout(_) => NN_SNDTIMEO,
        SocketOption::ReceiveTimeout(_) => NN_RCVTIMEO,
        SocketOption::ReconnectInterval(_) => NN_RECONNECT_IVL,
        SocketOption::MaxReconnectInterval(_) => NN_RECONNECT_IVL_MAX,
        SocketOption::SendPriority(_) => NN_SNDPRIO,
        SocketOption::ReceivePriority(_) => NN_RCVPRIO,
        SocketOption::Ipv4Only(_) => NN_IPV4ONLY,
        SocketOption::SocketName(_) => NN_SOCKET_NAME,
        SocketOption::TcpNoDelay(_) => NN_TCP_NODELAY,
        SocketOption::Subscribe(_) => NN_SUB_SUBSCRIBE,
        SocketOption::Unsubscribe(_) => NN_SUB_UNSUBSCRIBE,
        SocketOption::SurveyDeadline(_) => NN_SURVEYOR_DEADLINE,
        SocketOption::RequestResendInterval(_) => NN_REQ_RESEND_IVL,
    }
}

/// The C `int` of a boolean option.
pub open spec fn flag_int(b: bool) -> i32 {
    if b {
        1
    } else {
        0
    }
}

/// The value handed to nanomsg: spans as their whole milliseconds (rounded
/// toward zero) and sizes as
/// they are, both cut to a C `int`; priorities widened; booleans as one
/// or zero; texts as they are.
pub open spec fn is_option_value(opt: SocketOption, v: OptionValue) -> bool {
    match opt {
        SocketOption::Linger(d) => v == OptionValue::Int(whole_millis(d@) as i32),
        SocketOption::SendBufferSize(n) => v == OptionValue::Int(n as i32),
        SocketOption::ReceiveBufferSize(n) => v == OptionValue::Int(n as i32),
        SocketOption::SendTimeout(d) => v == OptionValue::Int(whole_millis(d@) as i32),
        SocketOption::ReceiveTimeout(d) => v == OptionValue::Int(whole_millis(d@) as i32),
        SocketOption::ReconnectInterval(d) => v == OptionValue::Int(whole_millis(d@) as i32),
        SocketOption::MaxReconnectInterval(d) => v == OptionValue::Int(whole_millis(d@) as i32),
        SocketOption::SendPriority(p) => v == OptionValue::Int(p as i32),
        SocketOption::ReceivePriority(p) => v == OptionValue::Int(p as i32),
        SocketOption::Ipv4Only(b) => v == OptionValue::Int(flag_int(b)),
        SocketOption::SocketName(t) => v matches OptionValue::Text(s) && s@ == t@,
        SocketOption::TcpNoDelay(b) => v == OptionValue::Int(flag_int(b)),
        SocketOption::Subscribe(t) => v matches OptionValue::Text(s) && s@ == t@,
        SocketOption::Unsubscribe(t) => v matches OptionValue::Text(s) && s@ == t@,
        SocketOption::SurveyDeadline(d) => v == OptionValue::Int(whole_millis(d@) as i32),
        SocketOption::RequestResendInterval(d) => v == OptionValue::Int(whole_millis(d@) as i32),
    }
}

/// The words of a failure to set an option: what was being set, and the
/// value it was being set to.
pub open spec fn option_failure_text(opt: SocketOption) -> Seq<char> {
    match opt {
        SocketOption::Linger(d) => "Failed to set linger to "@ + iso_duration_text(d@),
        SocketOption::SendBufferSize(n) => "Failed to set send buffer size to "@ + decimal_text(
            n as int,
        ),
        SocketOption::ReceiveBufferSize(n) => "Failed to set receive buffer size to "@
            + decimal_text(n as int),
        SocketOption::SendTimeout(d) => "Failed to set send timeout to "@ + iso_duration_text(d@),
        SocketOption::ReceiveTimeout(d) => "Failed to set receive timeout to "@ + iso_duration_text(
            d@,
        ),
        SocketOption::ReconnectInterval(d) => "Failed to set reconnect interval to "@
            + iso_duration_text(d@),
        SocketOption::MaxReconnectInterval(d) => "Failed to set max reconnect interval to "@
            + iso_duration_text(d@),
        SocketOption::SendPriority(p) => "Failed to set send priority to "@ + decimal_text(p as int),
        SocketOption::ReceivePriority(p) => "Failed to set receive priority to "@ + decimal_text(
            p as int,
        ),
        SocketOption::Ipv4Only(b) => "Failed to set ipv4 only to "@ + bool_text(b),
        SocketOption::SocketName(t) => "Failed to set the socket name to: "@ + t@,
        SocketOption::TcpNoDelay(b) => "Failed to set tcp nodelay to "@ + bool_text(b),
        SocketOption::Subscribe(t) => "Failed to subscribe to the topic: "@ + t@,
        SocketOption::Unsubscribe(t) => "Failed to unsubscribe from the topic: "@ + t@,
        SocketOption::SurveyDeadline(d) => "Failed to set survey deadline to "@ + iso_duration_text(
            d@,
        ),
        SocketOption::RequestResendInterval(d) => "Failed to set request resend interval to "@
            + iso_duration_text(d@),
    }
}

/// Which of the options this is, as a number.
pub open spec fn option_kind(opt: SocketOption) -> int {
    match opt {
        SocketOption::Linger(_) => 0,
        SocketOption::SendBufferSize(_) => 1,
        SocketOption::ReceiveBufferSize(_) => 2,
        SocketOption::SendTimeout(_) => 3,
        SocketOption::ReceiveTimeout(_) => 4,
        SocketOption::ReconnectInterval(_) => 5,
        SocketOption::MaxReconnectInterval(_) => 6,
        SocketOption::SendPriority(_) => 7,
        SocketOption::ReceivePriority(_) => 8,
        SocketOption::Ipv4Only(_) => 9,
        SocketOption::SocketName(_) => 10,
        SocketOption::TcpNoDelay(_) => 11,
        SocketOption::Subscribe(_) => 12,
        SocketOption::Unsubscribe(_) => 13,
        SocketOption::SurveyDeadline(_) => 14,
        SocketOption::RequestResendInterval(_) => 15,
    }
}

/// Each option is its own option of nanomsg: two options that nanomsg
/// would know by the same level and name are the same option.
pub proof fn lemma_options_addressed_apart(a: SocketOption, b: SocketOption)
    ensures
        option_level(a) == option_level(b) && option_name(a) == option_name(b) ==> option_kind(a)
            == option_kind(b),
{
}

/// The options of a protocol are set at the level that is the number of
/// that protocol: subscribing at the subscriber's, the survey deadline at
/// the surveyor's, the resend interval at the requester's.
pub proof fn lemma_protocol_options_at_protocol_level(topic: String, d: Duration)
    ensures
        option_level(SocketOption::Subscribe(topic)) == protocol_number(Protocol::Sub),
        option_level(SocketOption::Unsubscribe(topic)) == protocol_number(Protocol::Sub),
        option_level(SocketOption::SurveyDeadline(d)) == protocol_number(Protocol::Surveyor),
        option_level(SocketOption::RequestResendInterval(d)) == protocol_number(Protocol::Req),
{
}

/// Unsubscribing from a topic asks nanomsg for what subscribing to it
/// asked, at the same level and with the same bytes, under the
/// unsubscribe name in place of the subscribe name.
pub proof fn lemma_unsubscribe_mirrors_subscribe(topic: String, sub: OptionValue, unsub: OptionValue)
    requires
        is_option_value(SocketOption::Subscribe(topic), sub),
        is_option_value(SocketOption::Unsubscribe(topic), unsub),
    ensures
        option_level(SocketOption::Unsubscribe(topic)) == option_level(SocketOption::Subscribe(topic)),
        option_name(SocketOption::Subscribe(topic)) == NN_SUB_SUBSCRIBE,
        option_name(SocketOption::Unsubscribe(topic)) == NN_SUB_UNSUBSCRIBE,
        sub matches OptionValue::Text(a) && unsub matches OptionValue::Text(b) && a@ == b@,
{
}

/// What each option hands to nanomsg, stated from its argument alone: a
/// span hands its whole milliseconds, rounded toward zero, whenever they
/// fit a C `int` (the same for every span option); a size hands itself
/// whenever it fits; a priority hands itself; a flag hands 1 when set and
/// 0 when not; a name or a topic hands the whole text.
pub proof fn lemma_option_values(opt: SocketOption, v: OptionValue)
    requires
        is_option_value(opt, v),
    ensures
        match opt {
            SocketOption::Linger(d) | SocketOption::SendTimeout(d) | SocketOption::ReceiveTimeout(d)
            | SocketOption::ReconnectInterval(d) | SocketOption::MaxReconnectInterval(d)
            | SocketOption::SurveyDeadline(d) | SocketOption::RequestResendInterval(d) => {
                let m = if d@ < 0 { -((-d@) / 1_000_000) } else { d@ / 1_000_000 };
                v matches OptionValue::Int(x) && (i32::MIN <= m <= i32::MAX ==> x == m)
            },
            SocketOption::SendBufferSize(n) | SocketOption::ReceiveBufferSize(n) => {
                v matches OptionValue::Int(x) && (i32::MIN <= n <= i32::MAX ==> x == n)
            },
            SocketOption::SendPriority(p) | SocketOption::ReceivePriority(p) => {
                v matches OptionValue::Int(x) && x == p
            },
            SocketOption::Ipv4Only(b) | SocketOption::TcpNoDelay(b) => {
                v matches OptionValue::Int(x) && (b ==> x == 1) && (!b ==> x == 0)
            },
            SocketOption::SocketName(t) | SocketOption::Subscribe(t) | SocketOption::Unsubscribe(t) => {
                v matches OptionValue::Text(s) && s@ == t@
            },
        },
{
}

/// Where nanomsg knows each option, as (level, name): linger (0, 1), send
/// buffer (0, 2), receive buffer (0, 3), send timeout (0, 4), receive
/// timeout (0, 5), reconnect interval (0, 6), its maximum (0, 7), send
/// priority (0, 8), receive priority (0, 9), IPv4 only (0, 14), socket name
/// (0, 15), TCP no-delay (-3, 1), subscribe (33, 1), unsubscribe (33, 2),
/// survey deadline (98, 1), request resend interval (48, 1).
pub proof fn lemma_option_addresses(d: Duration, n: isize, p: u8, b: bool, t: String)
    ensures
        (option_level(SocketOption::Linger(d)), option_name(SocketOption::Linger(d))) == (0i32, 1i32),
        (option_level(SocketOption::SendBufferSize(n)), option_name(SocketOption::SendBufferSize(n))) == (0i32, 2i32),
        (option_level(SocketOption::ReceiveBufferSize(n)), option_name(SocketOption::ReceiveBufferSize(n))) == (0i32, 3i32),
        (option_level(SocketOption::SendTimeout(d)), option_name(SocketOption::SendTimeout(d))) == (0i32, 4i32),
        (option_level(SocketOption::ReceiveTimeout(d)), option_name(SocketOption::ReceiveTimeout(d))) == (0i32, 5i32),
        (option_level(SocketOption::ReconnectInterval(d)), option_name(SocketOption::ReconnectInterval(d))) == (0i32, 6i32),
        (option_level(SocketOption::MaxReconnectInterval(d)), option_name(SocketOption::MaxReconnectInterval(d))) == (0i32, 7i32),
        (option_level(SocketOption::SendPriority(p)), option_name(SocketOption::SendPriority(p))) == (0i32, 8i32),
        (option_level(SocketOption::ReceivePriority(p)), option_name(SocketOption::ReceivePriority(p))) == (0i32, 9i32),
        (option_level(SocketOption::Ipv4Only(b)), option_name(SocketOption::Ipv4Only(b))) == (0i32, 14i32),
        (option_level(SocketOption::SocketName(t)), option_name(SocketOption::SocketName(t))) == (0i32, 15i32),
        (option_level(SocketOption::TcpNoDelay(b)), option_name(SocketOption::TcpNoDelay(b))) == (-3i32, 1i32),
        (option_level(SocketOption::Subscribe(t)), option_name(SocketOption::Subscribe(t))) == (33i32, 1i32),
        (option_level(SocketOption::Unsubscribe(t)), option_name(SocketOption::Unsubscribe(t))) == (33i32, 2i32),
        (option_level(SocketOption::SurveyDeadline(d)), option_name(SocketOption::SurveyDeadline(d))) == (98i32, 1i32),
        (option_level(SocketOption::RequestResendInterval(d)), option_name(SocketOption::RequestResendInterval(d))) == (48i32, 1i32),
{
}

/// The words of a failure end with the value the option was being set
/// to: a span's ISO 8601 text, a size's or a priority's decimal text, a
/// flag's `true` or `false`, or the whole name or topic.
pub proof fn lemma_failure_text_ends_with_value(opt: SocketOption)
    ensures
        match opt {
            SocketOption::Linger(d) | SocketOption::SendTimeout(d) | SocketOption::ReceiveTimeout(d)
            | SocketOption::ReconnectInterval(d) | SocketOption::MaxReconnectInterval(d)
            | SocketOption::SurveyDeadline(d) | SocketOption::RequestResendInterval(d) => {
                let text = iso_duration_text(d@);
                let all = option_failure_text(opt);
                all.len() > text.len() && all.skip(all.len() - text.len()) == text
            },
            SocketOption::SendBufferSize(n) | SocketOption::ReceiveBufferSize(n) => {
                let text = decimal_text(n as int);
                let all = option_failure_text(opt);
                all.len() > text.len() && all.skip(all.len() - text.len()) == text
            },
            SocketOption::SendPriority(p) | SocketOption::ReceivePriority(p) => {
                let text = decimal_text(p as int);
                let all = option_failure_text(opt);
                all.len() > text.len() && all.skip(all.len() - text.len()) == text
            },
            SocketOption::Ipv4Only(b) | SocketOption::TcpNoDelay(b) => {
                let text = bool_text(b);
                let all = option_failure_text(opt);
                all.len() > text.len() && all.skip(all.len() - text.len()) == text
            },
            SocketOption::SocketName(t) | SocketOption::Subscribe(t) | SocketOption::Unsubscribe(t) => {
                let all = option_failure_text(opt);
                all.len() > t@.len() && all.skip(all.len() - t@.len()) == t@
            },
        },
{
    reveal_strlit("Failed to set linger to ");
    reveal_strlit("Failed to set send buffer size to ");
    reveal_strlit("Failed to set receive buffer size to ");
    reveal_strlit("Failed to set send timeout to ");
    reveal_strlit("Failed to set receive timeout to ");
    reveal_strlit("Failed to set reconnect interval to ");
    reveal_strlit("Failed to set max reconnect interval to ");
    reveal_strlit("Failed to set send priority to ");
    reveal_strlit("Failed to set receive priority to ");
    reveal_strlit("Failed to set ipv4 only to ");
    reveal_strlit("Failed to set the socket name to: ");
    reveal_strlit("Failed to set tcp nodelay to ");
    reveal_strlit("Failed to subscribe to the topic: ");
    reveal_strlit("Failed to unsubscribe from the topic: ");
    reveal_strlit("Failed to set survey deadline to ");
    reveal_strlit("Failed to set request resend interval to ");
    let all = option_failure_text(opt);
    match opt {
        SocketOption::Linger(d) | SocketOption::SendTimeout(d) | SocketOption::ReceiveTimeout(d)
        | SocketOption::ReconnectInterval(d) | SocketOption::MaxReconnectInterval(d)
        | SocketOption::SurveyDeadline(d) | SocketOption::RequestResendInterval(d) => {
            let text = iso_duration_text(d@);
            assert(all.skip(all.len() - text.len()) =~= text);
        },
        SocketOption::SendBufferSize(n) | SocketOption::ReceiveBufferSize(n) => {
            let text = decimal_text(n as int);
            assert(all.skip(all.len() - text.len()) =~= text);
        },
        SocketOption::SendPriority(p) | SocketOption::ReceivePriority(p) => {
            let text = decimal_text(p as int);
            assert(all.skip(all.len() - text.len()) =~= text);
        },
        SocketOption::Ipv4Only(b) | SocketOption::TcpNoDelay(b) => {
            let text = bool_text(b);
            assert(all.skip(all.len() - text.len()) =~= text);
        },
        SocketOption::SocketName(t) | SocketOption::Subscribe(t) | SocketOption::Unsubscribe(t) => {
            assert(all.skip(all.len() - t@.len()) =~= t@);
        },
    }
}

/// Starts a text with a literal.
fn text_of(lit: &str) -> (s: String)
    ensures
        s@ == lit@,
{
    String::from_str(lit)
}

impl SocketOption {
    /// The level at which nanomsg knows this option.
    pub fn level(&self) -> (r: i32)
        ensures
            r == option_level(*self),
    {
        match self {
            SocketOption::TcpNoDelay(_) => NN_TCP,
            SocketOption::Subscribe(_) => NN_SUB,
            SocketOption::Unsubscribe(_) => NN_SUB,
            SocketOption::SurveyDeadline(_) => NN_SURVEYOR,
            SocketOption::RequestResendInterval(_) => NN_REQ,
            _ => NN_SOL_SOCKET,
        }
    }

    /// The name under which nanomsg knows this option at its level.
    pub fn name(&self) -> (r: i32)
        ensures
            r == option_name(*self),
    {
        match self {
            SocketOption::Linger(_) => NN_LINGER,
            SocketOption::SendBufferSize(_) => NN_SNDBUF,
            SocketOption::ReceiveBufferSize(_) => NN_RCVBUF,
            SocketOption::SendTimeout(_) => NN_SNDTIMEO,
            SocketOption::ReceiveTimeout(_) => NN_RCVTIMEO,
            SocketOption::ReconnectInterval(_) => NN_RECONNECT_IVL,
            SocketOption::MaxReconnectInterval(_) => NN_RECONNECT_IVL_MAX,
            SocketOption::SendPriority(_) => NN_SNDPRIO,
            SocketOption::ReceivePriority(_) => NN_RCVPRIO,
            SocketOption::Ipv4Only(_) => NN_IPV4ONLY,
            SocketOption::SocketName(_) => NN_SOCKET_NAME,
            SocketOption::TcpNoDelay(_) => NN_TCP_NODELAY,
            SocketOption::Subscribe(_) => NN_SUB_SUBSCRIBE,
            SocketOption::Unsubscribe(_) => NN_SUB_UNSUBSCRIBE,
            SocketOption::SurveyDeadline(_) => NN_SURVEYOR_DEADLINE,
            SocketOption::RequestResendInterval(_) => NN_REQ_RESEND_IVL,
        }
    }

    /// The value handed to nanomsg for this option.
    pub fn value(&self) -> (v: OptionValue)
        ensures
            is_option_value(*self, v),
    {
        match self {
            SocketOption::Linger(d) => OptionValue::Int(d.num_milliseconds() as i32),
            SocketOption::SendBufferSize(n) => OptionValue::Int(*n as i32),
            SocketOption::ReceiveBufferSize(n) => OptionValue::Int(*n as i32),
            SocketOption::SendTimeout(d) => OptionValue::Int(d.num_milliseconds() as i32),
            SocketOption::ReceiveTimeout(d) => OptionValue::Int(d.num_milliseconds() as i32),
            SocketOption::ReconnectInterval(d) => OptionValue::Int(d.num_milliseconds() as i32),
            SocketOption::MaxReconnectInterval(d) => OptionValue::Int(d.num_milliseconds() as i32),
            SocketOption::SendPriority(p) => OptionValue::Int(*p as i32),
            SocketOption::ReceivePriority(p) => OptionValue::Int(*p as i32),
            SocketOption::Ipv4Only(b) => OptionValue::Int(if *b { 1 } else { 0 }),
            SocketOption::SocketName(t) => OptionValue::Text(t.clone()),
            SocketOption::TcpNoDelay(b) => OptionValue::Int(if *b { 1 } else { 0 }),
            SocketOption::Subscribe(t) => OptionValue::Text(t.clone()),
            SocketOption::Unsubscribe(t) => OptionValue::Text(t.clone()),
            SocketOption::SurveyDeadline(d) => OptionValue::Int(d.num_milliseconds() as i32),
            SocketOption::RequestResendInterval(d) => OptionValue::Int(d.num_milliseconds() as i32),
        }
    }

    /// The words of a failure to set this option.
    pub fn failure_text(&self) -> (s: String)
        ensures
            s@ == option_failure_text(*self),
    {
        match self {
            SocketOption::Linger(d) => {
                let mut s = text_of("Failed to set linger to ");
                d.push_iso_text(&mut s);
                s
            },
            SocketOption::SendBufferSize(n) => {
                let mut s = text_of("Failed to set send buffer size to ");
                push_decimal(&mut s, *n as i64);
                s
            },
            SocketOption::ReceiveBufferSize(n) => {
                let mut s = text_of("Failed to set receive buffer size to ");
                push_decimal(&mut s, *n as i64);
                s
            },
            SocketOption::SendTimeout(d) => {
                let mut s = text_of("Failed to set send timeout to ");
                d.push_iso_text(&mut s);
                s
            },
            SocketOption::ReceiveTimeout(d) => {
                let mut s = text_of("Failed to set receive timeout to ");
                d.push_iso_text(&mut s);
                s
            },
            SocketOption::ReconnectInterval(d) => {
                let mut s = text_of("Failed to set reconnect interval to ");
                d.push_iso_text(&mut s);
                s
            },
            SocketOption::MaxReconnectInterval(d) => {
                let mut s = text_of("Failed to set max reconnect interval to ");
                d.push_iso_text(&mut s);
                s
            },
            SocketOption::SendPriority(p) => {
                let mut s = text_of("Failed to set send priority to ");
                push_decimal(&mut s, *p as i64);
                s
            },
            SocketOption::ReceivePriority(p) => {
                let mut s = text_of("Failed to set receive priority to ");
                push_decimal(&mut s, *p as i64);
                s
            },
            SocketOption::Ipv4Only(b) => {
                let mut s = text_of("Failed to set ipv4 only to ");
                push_bool(&mut s, *b);
                s
            },
            SocketOption::SocketName(t) => {
                let s = text_of("Failed to set the socket name to: ");
                s.concat(t.as_str())
            },
            SocketOption::TcpNoDelay(b) => {
                let mut s = text_of("Failed to set tcp nodelay to ");
                push_bool(&mut s, *b);
                s
            },
            SocketOption::Subscribe(t) => {
                let s = text_of("Failed to subscribe to the topic: ");
                s.concat(t.as_str())
            },
            SocketOption::Unsubscribe(t) => {
                let s = text_of("Failed to unsubscribe from the topic: ");
                s.concat(t.as_str())
            },
            SocketOption::SurveyDeadline(d) => {
                let mut s = text_of("Failed to set survey deadline to ");
                d.push_iso_text(&mut s);
                s
            },
            SocketOption::RequestResendInterval(d) => {
                let mut s = text_of("Failed to set request resend interval to ");
                d.push_iso_text(&mut s);
                s
            },
        }
    }
}

} // verus!
