//! The telemetry record of one connection attempt.

use vstd::prelude::*;

verus! {

/// Why a connection attempt was started.
#[derive(Copy, Clone, Debug, PartialEq, Eq)]
pub enum Cause {
    Probe,
    Reconnect,
    Retry,
}

/// How a connection attempt ended, as reported to the metrics collaborator.
#[derive(Copy, Clone, Debug, PartialEq, Eq)]
pub enum HandshakeResult {
    Unknown,
    Success,
    Timeout,
    TlsFail,
    ServerUnreachable,
}

/// Counters of one connection attempt. The driver fills in `elapsed`, the byte
/// counters and the protocol version when the handshake ends; it never
/// touches the other fields.
#[derive(Copy, Clone, Debug, PartialEq, Eq)]
pub struct HandshakeInfo {
    pub cause: Cause,
    pub sent_bytes: u64,
    pub recv_bytes: u64,
    /// Microseconds from the start of the attempt to its end.
    pub elapsed: u128,
    pub quic_version: u32,
    pub network_type: u32,
    pub private_dns_mode: u32,
    pub session_hit_checker: bool,
}

/// The character for a decimal digit.
pub open spec fn digit(d: nat) -> char {
    if d == 0 {
        '0'
    } else if d == 1 {
        '1'
    } else if d == 2 {
        '2'
    } else if d == 3 {
        '3'
    } else if d == 4 {
        '4'
    } else if d == 5 {
        '5'
    } else if d == 6 {
        '6'
    } else if d == 7 {
        '7'
    } else if d == 8 {
        '8'
    } else {
        '9'
    }
}

/// A number in decimal, without leading zeros.
pub open spec fn decimal(n: nat) -> Seq<char>
    decreases n,
{
    if n < 10 {
        seq![digit(n)]
    } else {
        decimal(n / 10).push(digit(n % 10))
    }
}

fn push_digit(out: &mut String, d: u64)
    requires
        d < 10,
    ensures
        final(out)@ == old(out)@.push(digit(d as nat)),
{
    proof {
        reveal_strlit("0");
        reveal_strlit("1");
        reveal_strlit("2");
        reveal_strlit("3");
        reveal_strlit("4");
        reveal_strlit("5");
        reveal_strlit("6");
        reveal_strlit("7");
        reveal_strlit("8");
        reveal_strlit("9");
    }
    let text = if d == 0 {
        "0"
    } else if d == 1 {
        "1"
    } else if d == 2 {
        "2"
    } else if d == 3 {
        "3"
    } else if d == 4 {
        "4"
    } else if d == 5 {
        "5"
    } else if d == 6 {
        "6"
    } else if d == 7 {
        "7"
    } else if d == 8 {
        "8"
    } else {
        "9"
    };
    assert(text@ =~= seq![digit(d as nat)]);
    out.append(text);
    assert(out@ =~= old(out)@.push(digit(d as nat)));
}

fn push_decimal(out: &mut String, n: u64)
    ensures
        final(out)@ == old(out)@ + decimal(n as nat),
    decreases n,
{
    if n >= 10 {
        push_decimal(out, n / 10);
        push_digit(out, n % 10);
        assert(out@ =~= old(out)@ + decimal(n as nat));
    } else {
        push_digit(out, n);
        assert(out@ =~= old(out)@ + decimal(n as nat));
    }
}

impl Cause {
    /// The cause by its name.
    pub open spec fn name(self) -> Seq<char> {
        match self {
            Cause::Probe => "Probe"@,
            Cause::Reconnect => "Reconnect"@,
            Cause::Retry => "Retry"@,
        }
    }
}

/// `true` or `false`, spelled out.
pub open spec fn truth(b: bool) -> Seq<char> {
    if b {
        "true"@
    } else {
        "false"@
    }
}

impl HandshakeInfo {
    /// The line that `describe` returns.
    pub open spec fn description(self) -> Seq<char> {
        "cause="@ + self.cause.name() + ", sent_bytes="@ + decimal(self.sent_bytes as nat)
            + ", recv_bytes="@ + decimal(self.recv_bytes as nat) + ", quic_version="@ + decimal(
            self.quic_version as nat,
        ) + ", session_hit_checker="@ + truth(self.session_hit_checker)
    }

    /// The record as one line for a log: the cause by name, the two byte
    /// counters and the protocol version in decimal, and whether the session
    /// was resumed.
    pub fn describe(&self) -> (line: String)
        ensures
            line@ == self.description(),
    {
        let mut line = String::new();
        line.append("cause=");
        line.append(
            match self.cause {
                Cause::Probe => "Probe",
                Cause::Reconnect => "Reconnect",
                Cause::Retry => "Retry",
            },
        );
        line.append(", sent_bytes=");
        push_decimal(&mut line, self.sent_bytes);
        line.append(", recv_bytes=");
        push_decimal(&mut line, self.recv_bytes);
        line.append(", quic_version=");
        let version: u64 = self.quic_version as u64;
        push_decimal(&mut line, version);
        line.append(", session_hit_checker=");
        line.append(
            if self.session_hit_checker {
                "true"
            } else {
                "false"
            },
        );
        assert(line@ =~= self.description());
        line
    }

    /// The record after a handshake that succeeded.
    pub open spec fn completed(
        self,
        elapsed: u128,
        sent_bytes: u64,
        recv_bytes: u64,
        quic_version: u32,
    ) -> HandshakeInfo {
        HandshakeInfo { elapsed, sent_bytes, recv_bytes, quic_version, ..self }
    }

    /// The record after a handshake that ran out of time.
    pub open spec fn expired(self, elapsed: u128) -> HandshakeInfo {
        HandshakeInfo { elapsed, ..self }
    }
}

} // verus!
