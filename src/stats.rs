//! The count of forwarded requests and its textual report.
use vstd::prelude::*;
use vstd::string::*;

verus! {

/// The running statistics of the proxy.
#[derive(Debug, Clone, Copy, PartialEq, Eq, Structural)]
pub struct Stats {
    /// How many requests reached the upstream dispatch step.
    pub proxied: usize,
}

/// The character of one decimal digit.
pub open spec fn digit_char(d: nat) -> char {
    if d == 0 { '0' }
    else if d == 1 { '1' }
    else if d == 2 { '2' }
    else if d == 3 { '3' }
    else if d == 4 { '4' }
    else if d == 5 { '5' }
    else if d == 6 { '6' }
    else if d == 7 { '7' }
    else if d == 8 { '8' }
    else { '9' }
}

/// The decimal digits of `n`, most significant first, without leading zeros.
pub open spec fn decimal(n: nat) -> Seq<char>
    decreases n,
{
    if n < 10 {
        seq![digit_char(n)]
    } else {
        decimal(n / 10).push(digit_char(n % 10))
    }
}

/// The report served on the status path for a given count.
pub open spec fn status_text(proxied: nat) -> Seq<char> {
    "Stats { proxied: "@ + decimal(proxied) + " }"@
}

fn digit_str(d: usize) -> (r: &'static str)
    requires
        d < 10,
    ensures
        r@ == seq![digit_char(d as nat)],
{
    proof {
        reveal_strlit("0");
        reveal_strlit("1");
        reveal_strlit("2");
        reveal_strlit("3");
        reveal_strlit("4");
        reveal_strlit("5");
        reveal_strlit("6");
        reveal_strlit("7");
        reveal_strlit("8");
        reveal_strlit("9");
    }
    if d == 0 {
        "0"
    } else if d == 1 {
        "1"
    } else if d == 2 {
        "2"
    } else if d == 3 {
        "3"
    } else if d == 4 {
        "4"
    } else if d == 5 {
        "5"
    } else if d == 6 {
        "6"
    } else if d == 7 {
        "7"
    } else if d == 8 {
        "8"
    } else {
        "9"
    }
}

/// Appends the decimal digits of `n` to `s`.
fn push_decimal(s: &mut String, n: usize)
    ensures
        final(s)@ == old(s)@ + decimal(n as nat),
    decreases n,
{
    if n < 10 {
        s.append(digit_str(n));
    } else {
        push_decimal(s, n / 10);
        s.append(digit_str(n % 10));
        assert(final(s)@ =~= old(s)@ + decimal(n as nat));
    }
}

impl Stats {
    /// Statistics of a proxy that has forwarded nothing yet.
    pub fn new() -> (r: Stats)
        ensures
            r.proxied == 0,
    {
        Stats { proxied: 0 }
    }

    /// How many requests were forwarded.
    pub fn proxied(&self) -> (r: usize)
        ensures
            r == self.proxied,
    {
        self.proxied
    }

    /// Counts one more request that reached the dispatch step.
    pub fn record_proxied(&mut self)
        requires
            old(self).proxied < usize::MAX,
        ensures
            final(self).proxied == old(self).proxied + 1,
    {
        self.proxied = self.proxied + 1;
    }

    /// The report served on the status path: `Stats { proxied: N }`.
    pub fn status_body(&self) -> (r: String)
        ensures
            r@ == status_text(self.proxied as nat),
    {
        let mut s = String::from_str("Stats { proxied: ");
        push_decimal(&mut s, self.proxied);
        s.append(" }");
        s
    }
}

} // verus!
