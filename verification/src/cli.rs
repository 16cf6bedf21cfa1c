//! The miner's command-line options and the parsing of the dev-fund share.
use vstd::prelude::*;
use vstd::string::{StrSliceExecFns, StringExecFns};

verus! {

/// The log levels that the options select, in the order of the `log` crate's filter.
#[derive(Debug, Clone, Copy, PartialEq, Eq)]
pub enum LevelFilter {
    Off,
    Error,
    Warn,
    Info,
    Debug,
    Trace,
}

/// The miner's options, as the command line gives them.
#[derive(Debug)]
pub struct Opt {
    /// Enable debug logging.
    pub debug: bool,
    /// The address that receives the mining rewards.
    pub mining_address: String,
    /// The address of the node, a bare IP address or a `grpc://` URL.
    pub cryptixd_address: String,
    /// An address for the dev-fund share, if one is given.
    pub devfund_address: Option<String>,
    /// The dev-fund share in hundredths of a percent.
    pub devfund_percent: u16,
    /// The node's port; the network's default when absent.
    pub port: Option<u16>,
    /// Use the test network.
    pub testnet: bool,
    /// The number of mining threads.
    pub num_threads: Option<u16>,
    /// Mine even when the node says it is not synced.
    pub mine_when_not_synced: bool,
    /// A pause between hashes, in milliseconds.
    pub throttle: Option<u64>,
    /// Use the alternative log format.
    pub altlogs: bool,
}

/// Why a dev-fund share was refused.
#[derive(Debug, Clone, Copy, PartialEq, Eq)]
pub enum PercentError {
    /// Not of the form `XX` or `XX.YY`, with at most two digits on each side.
    Format,
    /// Below 1 %, or a part of 100 or more.
    TooLow,
}

/// The decimal value of the digit string `s`.
pub open spec fn digits_value(s: Seq<char>) -> int
    decreases s.len(),
{
    if s.len() == 0 {
        0
    } else {
        digits_value(s.drop_last()) * 10 + (s.last() as int - '0' as int)
    }
}

/// Every character of `s` is an ASCII decimal digit.
pub open spec fn all_digits(s: Seq<char>) -> bool {
    forall|i: int| 0 <= i < s.len() ==> '0' <= #[trigger] s[i] <= '9'
}

/// What `u16::from_str` gives for `s`: an optional `+` followed by one or more ASCII
/// digits whose value fits in a `u16`.
pub open spec fn parse_u16_spec(s: Seq<char>) -> Option<u16> {
    let body = if s.len() > 0 && s[0] == '+' {
        s.drop_first()
    } else {
        s
    };
    if body.len() > 0 && all_digits(body) && digits_value(body) <= u16::MAX {
        Some(digits_value(body) as u16)
    } else {
        None
    }
}

/// A digit string's value is at least that of each of its prefixes.
proof fn lemma_digits_prefix(s: Seq<char>, i: int)
    requires
        all_digits(s),
        0 <= i <= s.len(),
    ensures
        digits_value(s.subrange(0, i)) <= digits_value(s),
        digits_value(s) >= 0,
    decreases s.len(),
{
    if s.len() > 0 {
        assert(all_digits(s.drop_last()));
        if i == s.len() {
            assert(s.subrange(0, i) =~= s);
            lemma_digits_prefix(s.drop_last(), 0);
        } else {
            assert(s.drop_last().subrange(0, i) =~= s.subrange(0, i));
            lemma_digits_prefix(s.drop_last(), i);
        }
    } else {
        assert(s.subrange(0, i) =~= s);
    }
}

/// Parses a decimal `u16` as `u16::from_str` does: an optional `+`, then one or more
/// ASCII digits whose value fits in 16 bits.
fn parse_u16(s: &str) -> (r: Option<u16>)
    ensures
        r == parse_u16_spec(s@),
{
    let n = s.unicode_len();
    let start: usize = if n > 0 && s.get_char(0) == '+' {
        1
    } else {
        0
    };
    let ghost body = if s@.len() > 0 && s@[0] == '+' {
        s@.drop_first()
    } else {
        s@
    };
    proof {
        assert(body =~= s@.subrange(start as int, n as int));
    }
    if start == n {
        return None;
    }
    let mut v: u32 = 0;
    let mut i: usize = start;
    while i < n
        invariant
            start <= i <= n,
            n == s@.len(),
            body =~= s@.subrange(start as int, n as int),
            body == (if s@.len() > 0 && s@[0] == '+' {
                s@.drop_first()
            } else {
                s@
            }),
            all_digits(body.subrange(0, i - start)),
            v as int == digits_value(body.subrange(0, i - start)),
            v <= 65535,
        decreases n - i,
    {
        let c = s.get_char(i);
        let ghost pre = body.subrange(0, i - start);
        let ghost next = body.subrange(0, i - start + 1);
        proof {
            assert(next.drop_last() =~= pre);
            assert(next.last() == c);
        }
        if c < '0' || c > '9' {
            proof {
                assert(body[i - start] == c);
                assert(!all_digits(body));
            }
            return None;
        }
        let d: u32 = (c as u32) - ('0' as u32);
        v = v * 10 + d;
        proof {
            assert(v as int == digits_value(next));
            assert forall|k: int| 0 <= k < next.len() implies '0' <= #[trigger] next[k] <= '9' by {
                if k < pre.len() {
                    assert(next[k] == pre[k]);
                }
            }
        }
        if v > 65535 {
            proof {
                if all_digits(body) {
                    lemma_digits_prefix(body, i - start + 1);
                    assert(digits_value(body) > 65535);
                }
            }
            return None;
        }
        i = i + 1;
    }
    proof {
        assert(body.subrange(0, n - start) =~= body);
    }
    Some(v as u16)
}

/// The number of `.` characters in `s`.
pub open spec fn dot_count(s: Seq<char>) -> nat
    decreases s.len(),
{
    if s.len() == 0 {
        0
    } else {
        dot_count(s.drop_last()) + if s.last() == '.' {
            1nat
        } else {
            0nat
        }
    }
}

/// The position of the first `.` in `s`, or the length of `s` when it has none.
pub open spec fn first_dot(s: Seq<char>) -> int
    decreases s.len(),
{
    if s.len() == 0 {
        0
    } else if dot_count(s.drop_last()) > 0 {
        first_dot(s.drop_last())
    } else if s.last() == '.' {
        s.len() - 1
    } else {
        s.len() as int
    }
}

/// The hundredths of a percent that the fraction digits `q` denote, of value `post`: a
/// single digit counts tenths (`.5` is 50), two digits count hundredths.
pub open spec fn fraction_hundredths(q: Seq<char>, post: u16) -> int {
    if q.len() == 1 {
        post * 10
    } else {
        post as int
    }
}

/// The dev-fund share that `s` denotes, in hundredths of a percent: `XX` or `XX.YY`, a
/// percentage with at most two decimals (`1.5` is 1.50 %), of at least 1 %.
pub open spec fn percent_spec(s: Seq<char>) -> Result<u16, PercentError> {
    let d = first_dot(s);
    let prefix = s.subrange(0, d);
    let postfix = if d < s.len() {
        s.subrange(d + 1, s.len() as int)
    } else {
        seq!['0']
    };
    if dot_count(s) > 1 || prefix.len() > 2 || postfix.len() > 2 {
        Err(PercentError::Format)
    } else {
        match (parse_u16_spec(postfix), parse_u16_spec(prefix)) {
            (Some(post), Some(pre)) => if pre >= 100 || post >= 100 || pre * 100
                + fraction_hundredths(postfix, post) < 100 {
                Err(PercentError::TooLow)
            } else {
                Ok((pre * 100 + fraction_hundredths(postfix, post)) as u16)
            },
            _ => Err(PercentError::Format),
        }
    }
}

/// Parses the `--devfund-percent` value: `XX` or `XX.YY`, at most two digits on each
/// side, between 1 % and 99.99 %, into hundredths of a percent.
pub fn parse_devfund_percent(s: &str) -> (r: Result<u16, &'static str>)
    ensures
        match percent_spec(s@) {
            Ok(v) => r == Ok::<u16, &'static str>(v),
            Err(PercentError::Format) => r matches Err(e) && e@
                == "devfund-percent should be --devfund-percent=XX.YY up to 2 numbers after the dot"@,
            Err(PercentError::TooLow) => r matches Err(e) && e@
                == "devfund-percent must be at least 1%"@,
        },
{
    let n = s.unicode_len();
    let mut i: usize = 0;
    let mut dots: usize = 0;
    let mut first: usize = n;
    while i < n
        invariant
            n == s@.len(),
            i <= n,
            dots as nat == dot_count(s@.subrange(0, i as int)),
            dots == 0 ==> first == n,
            dots > 0 ==> first as int == first_dot(s@.subrange(0, i as int)),
            dots <= i,
            first <= n,
            dots > 0 ==> first < i,
        decreases n - i,
    {
        let c = s.get_char(i);
        proof {
            let t = s@.subrange(0, i as int + 1);
            assert(t.drop_last() =~= s@.subrange(0, i as int));
            assert(t.last() == c);
        }
        if c == '.' {
            if dots == 0 {
                first = i;
            }
            dots = dots + 1;
        }
        i = i + 1;
    }
    proof {
        assert(s@.subrange(0, n as int) =~= s@);
        if dots == 0 {
            lemma_no_dot_first(s@);
        }
    }
    if dots > 1 {
        return Err("devfund-percent should be --devfund-percent=XX.YY up to 2 numbers after the dot");
    }
    let prefix = s.substring_char(0, first);
    let postfix = if first < n {
        s.substring_char(first + 1, n)
    } else {
        proof {
            reveal_strlit("0");
        }
        "0"
    };
    proof {
        let d = first_dot(s@);
        assert(first as int == d);
        assert(prefix@ == s@.subrange(0, d));
        if d < s@.len() {
            assert(postfix@ == s@.subrange(d + 1, s@.len() as int));
        } else {
            assert(postfix@ =~= seq!['0']);
        }
    }
    if prefix.unicode_len() > 2 || postfix.unicode_len() > 2 {
        return Err("devfund-percent should be --devfund-percent=XX.YY up to 2 numbers after the dot");
    }
    let post = match parse_u16(postfix) {
        Some(v) => v,
        None => {
            return Err(
                "devfund-percent should be --devfund-percent=XX.YY up to 2 numbers after the dot",
            );
        },
    };
    let pre = match parse_u16(prefix) {
        Some(v) => v,
        None => {
            return Err(
                "devfund-percent should be --devfund-percent=XX.YY up to 2 numbers after the dot",
            );
        },
    };
    if pre >= 100 || post >= 100 {
        return Err("devfund-percent must be at least 1%");
    }
    let hundredths: u16 = if postfix.unicode_len() == 1 {
        post * 10
    } else {
        post
    };
    let value: u16 = pre * 100 + hundredths;
    if value < 100 {
        return Err("devfund-percent must be at least 1%");
    }
    Ok(value)
}

proof fn lemma_no_dot_first(s: Seq<char>)
    requires
        dot_count(s) == 0,
    ensures
        first_dot(s) == s.len(),
    decreases s.len(),
{
    if s.len() > 0 {
        lemma_no_dot_first(s.drop_last());
    }
}

impl Opt {
    /// The node's port, filling in the network's default (19202 on the test network,
    /// 19201 otherwise) when none was given.
    pub fn port(&mut self) -> (p: u16)
        ensures
            p == match old(self).port {
                Some(q) => q,
                None => if old(self).testnet {
                    19202u16
                } else {
                    19201u16
                },
            },
            final(self).port == Some(p),
            final(self).debug == old(self).debug,
            final(self).mining_address == old(self).mining_address,
            final(self).cryptixd_address == old(self).cryptixd_address,
            final(self).devfund_address == old(self).devfund_address,
            final(self).devfund_percent == old(self).devfund_percent,
            final(self).testnet == old(self).testnet,
            final(self).num_threads == old(self).num_threads,
            final(self).mine_when_not_synced == old(self).mine_when_not_synced,
            final(self).throttle == old(self).throttle,
            final(self).altlogs == old(self).altlogs,
    {
        match self.port {
            Some(q) => q,
            None => {
                let q: u16 = if self.testnet {
                    19202
                } else {
                    19201
                };
                self.port = Some(q);
                q
            },
        }
    }

    /// `Debug` when debug logging was asked for, `Info` otherwise.
    pub fn log_level(&self) -> (l: LevelFilter)
        ensures
            l == if self.debug {
                LevelFilter::Debug
            } else {
                LevelFilter::Info
            },
    {
        if self.debug {
            LevelFilter::Debug
        } else {
            LevelFilter::Info
        }
    }

    /// The address of the dev fund.
    pub fn devfund_address(&self) -> (a: &'static str)
        ensures
            a@ == "cryptix:qrjefk2r8wp607rmyvxmgjansqcwugjazpu2kk2r7057gltxetdvk8gl9fs0w"@,
    {
        "cryptix:qrjefk2r8wp607rmyvxmgjansqcwugjazpu2kk2r7057gltxetdvk8gl9fs0w"
    }
}


/// The decimal digits of `n`, most significant first, without leading zeros.
pub open spec fn decimal(n: nat) -> Seq<char>
    decreases n,
{
    if n < 10 {
        seq![(48 + n) as char]
    } else {
        decimal(n / 10).push((48 + n % 10) as char)
    }
}

/// `s` begins with `grpc://`.
pub open spec fn has_grpc_scheme(s: Seq<char>) -> bool {
    s.len() >= 7 && s.subrange(0, 7) == "grpc://"@
}

/// The decimal digit `d` as a one-character string.
fn digit_str(d: u16) -> (s: &'static str)
    requires
        d < 10,
    ensures
        s@ == seq![(48 + d) as char],
{
    proof {
        reveal_strlit("0");
        reveal_strlit("1");
        reveal_strlit("2");
        reveal_strlit("3");
        reveal_strlit("4");
        reveal_strlit("5");
        reveal_strlit("6");
        reveal_strlit("7");
        reveal_strlit("8");
        reveal_strlit("9");
    }
    match d {
        0 => "0",
        1 => "1",
        2 => "2",
        3 => "3",
        4 => "4",
        5 => "5",
        6 => "6",
        7 => "7",
        8 => "8",
        _ => "9",
    }
}

/// `n` written in decimal, without leading zeros.
pub fn decimal_string(n: u16) -> (s: String)
    ensures
        s@ == decimal(n as nat),
    decreases n,
{
    if n < 10 {
        String::from_str(digit_str(n))
    } else {
        let mut s = decimal_string(n / 10);
        s.append(digit_str(n % 10));
        proof {
            assert(s@ =~= decimal((n / 10) as nat).push((48 + n % 10) as char));
        }
        s
    }
}

/// The fields of `a` and `b` other than the node address and the port agree.
pub open spec fn same_settings(a: Opt, b: Opt) -> bool {
    &&& a.debug == b.debug
    &&& a.mining_address == b.mining_address
    &&& a.devfund_address == b.devfund_address
    &&& a.devfund_percent == b.devfund_percent
    &&& a.testnet == b.testnet
    &&& a.num_threads == b.num_threads
    &&& a.mine_when_not_synced == b.mine_when_not_synced
    &&& a.throttle == b.throttle
    &&& a.altlogs == b.altlogs
}

/// The port that `port()` settles on.
pub open spec fn port_spec(o: Opt) -> u16 {
    match o.port {
        Some(q) => q,
        None => if o.testnet {
            19202u16
        } else {
            19201u16
        },
    }
}

impl Opt {
    /// Puts `127.0.0.1` in place of an empty node address, and tells whether the address
    /// is then a bare host, which must be an IP address and becomes a `grpc://` URL.
    pub fn normalize_address(&mut self) -> (bare_host: bool)
        ensures
            final(self).cryptixd_address@ == if old(self).cryptixd_address@.len() == 0 {
                "127.0.0.1"@
            } else {
                old(self).cryptixd_address@
            },
            bare_host == !has_grpc_scheme(final(self).cryptixd_address@),
            final(self).port == old(self).port,
            same_settings(*old(self), *final(self)),
    {
        if self.cryptixd_address.as_str().is_empty() {
            self.cryptixd_address = String::from_str("127.0.0.1");
        }
        proof {
            reveal_strlit("grpc://");
        }
        let addr = self.cryptixd_address.as_str();
        let n = addr.unicode_len();
        if n < 7 {
            return true;
        }
        let prefix = addr.substring_char(0, 7);
        let expected = "grpc://";
        let mut i: usize = 0;
        #[verifier::loop_isolation(false)]
        while i < 7
            invariant
                i <= 7,
                prefix@.len() == 7,
                expected@ == "grpc://"@,
                expected@.len() == 7,
                forall|k: int| 0 <= k < i ==> prefix@[k] == expected@[k],
            decreases 7 - i,
        {
            if prefix.get_char(i) != expected.get_char(i) {
                assert(self.cryptixd_address@.subrange(0, 7)[i as int] != "grpc://"@[i as int]);
                return true;
            }
            i = i + 1;
        }
        assert(prefix@ =~= "grpc://"@);
        false
    }

    /// Turns a bare host address into `grpc://{host}:{port}`, filling in the network's
    /// default port when none was given.
    pub fn to_grpc_url(&mut self)
        ensures
            final(self).cryptixd_address@ == "grpc://"@ + old(self).cryptixd_address@ + ":"@ + decimal(
                port_spec(*old(self)) as nat,
            ),
            final(self).port == Some(port_spec(*old(self))),
            same_settings(*old(self), *final(self)),
    {
        let port = self.port();
        let mut url = String::from_str("grpc://");
        url.append(self.cryptixd_address.as_str());
        url.append(":");
        let digits = decimal_string(port);
        url.append(digits.as_str());
        self.cryptixd_address = url;
    }
}


/// One character parses to at most 9.
proof fn lemma_one_char_value(q: Seq<char>)
    requires
        q.len() == 1,
        parse_u16_spec(q) is Some,
    ensures
        parse_u16_spec(q).unwrap() <= 9,
{
    assert(q[0] != '+');
    assert(digits_value(q.drop_last()) == 0);
    assert('0' <= q[0] <= '9');
}

/// An accepted dev-fund share lies between 1 % and 99.99 %.
pub proof fn lemma_percent_range(s: Seq<char>)
    ensures
        percent_spec(s) matches Ok(v) ==> 100 <= v <= 9999,
{
    let d = first_dot(s);
    let postfix = if d < s.len() {
        s.subrange(d + 1, s.len() as int)
    } else {
        seq!['0']
    };
    if postfix.len() == 1 && parse_u16_spec(postfix) is Some {
        lemma_one_char_value(postfix);
    }
}

/// Once `port()` has filled in a port, later calls give the same port.
pub proof fn lemma_port_settles(o: Opt, p: u16)
    requires
        o.port == Some(p),
    ensures
        port_spec(o) == p,
{
}

/// A `grpc://` URL that `to_grpc_url` builds is recognised as one: resolving the
/// address a second time leaves it as it is.
pub proof fn lemma_grpc_url_has_scheme(host: Seq<char>, port: u16)
    ensures
        has_grpc_scheme("grpc://"@ + host + ":"@ + decimal(port as nat)),
{
    reveal_strlit("grpc://");
    let url = "grpc://"@ + host + ":"@ + decimal(port as nat);
    assert(url.subrange(0, 7) =~= "grpc://"@);
}

} // verus!
