//! The default identity of this agent instance: a descriptive string of the
//! form `app://<hostname>/<executable-path>?pid=<process-id>`.
//!
//! The hostname and executable-path lookups, and the process-wide memoization
//! of the result, are environment work and live with the caller; this module
//! holds the computation, which is total: a component whose lookup failed is
//! rendered as the literal placeholder `<unknown>`.

use vstd::prelude::*;

verus! {

/// The decimal digit character for `d`.
pub open spec fn dec_digit(d: nat) -> char {
    if d == 0 {
        '0'
    } else if d == 1 {
        '1'
    } else if d == 2 {
        '2'
    } else if d == 3 {
        '3'
    } else if d == 4 {
        '4'
    } else if d == 5 {
        '5'
    } else if d == 6 {
        '6'
    } else if d == 7 {
        '7'
    } else if d == 8 {
        '8'
    } else {
        '9'
    }
}

/// The decimal rendering of `n`, without leading zeros (`0` for zero).
pub open spec fn dec_view(n: nat) -> Seq<char>
    decreases n,
{
    if n < 10 {
        seq![dec_digit(n)]
    } else {
        dec_view(n / 10).push(dec_digit(n % 10))
    }
}

/// The single-character string for a digit.
fn digit_str(d: u32) -> (r: String)
    requires
        d < 10,
    ensures
        r@ =~= seq![dec_digit(d as nat)],
{
    let r = if d == 0 {
        String::from_str("0")
    } else if d == 1 {
        String::from_str("1")
    } else if d == 2 {
        String::from_str("2")
    } else if d == 3 {
        String::from_str("3")
    } else if d == 4 {
        String::from_str("4")
    } else if d == 5 {
        String::from_str("5")
    } else if d == 6 {
        String::from_str("6")
    } else if d == 7 {
        String::from_str("7")
    } else if d == 8 {
        String::from_str("8")
    } else {
        String::from_str("9")
    };
    proof {
        reveal_strlit("0");
        reveal_strlit("1");
        reveal_strlit("2");
        reveal_strlit("3");
        reveal_strlit("4");
        reveal_strlit("5");
        reveal_strlit("6");
        reveal_strlit("7");
        reveal_strlit("8");
        reveal_strlit("9");
    }
    r
}

/// Render `n` in decimal.
pub fn u32_decimal(n: u32) -> (r: String)
    ensures
        r@ == dec_view(n as nat),
    decreases n,
{
    if n < 10 {
        digit_str(n)
    } else {
        let mut s = u32_decimal(n / 10);
        let last = digit_str(n % 10);
        s.append(last.as_str());
        proof {
            assert(s@ =~= dec_view((n / 10) as nat).push(dec_digit((n % 10) as nat)));
        }
        s
    }
}

/// A looked-up component, or the placeholder where the lookup failed.
pub open spec fn component_or_unknown(c: Option<Seq<char>>) -> Seq<char> {
    match c {
        Some(s) => s,
        None => "<unknown>"@,
    }
}

/// The identity string derived from the looked-up components.
pub open spec fn identity_view(host: Option<Seq<char>>, exe: Option<Seq<char>>, pid: nat) -> Seq<
    char,
> {
    "app://"@ + component_or_unknown(host) + "/"@ + component_or_unknown(exe) + "?pid="@ + dec_view(
        pid,
    )
}

/// Compute the default forwards-to identity of this agent instance from its
/// hostname, executable path and process id; a component given as `None`
/// (its lookup failed) is rendered as `<unknown>`. Total: never fails.
pub fn default_forwards_to(hostname: Option<String>, exe: Option<String>, pid: u32) -> (r: String)
    ensures
        r@ == identity_view(hostname.deep_view(), exe.deep_view(), pid as nat),
{
    let mut s = String::from_str("app://");
    match &hostname {
        Some(h) => s.append(h.as_str()),
        None => s.append("<unknown>"),
    }
    s.append("/");
    match &exe {
        Some(e) => s.append(e.as_str()),
        None => s.append("<unknown>"),
    }
    s.append("?pid=");
    let digits = u32_decimal(pid);
    s.append(digits.as_str());
    proof {
        assert(s@ =~= identity_view(hostname.deep_view(), exe.deep_view(), pid as nat));
    }
    s
}

/// The identity string always carries the `app://` scheme prefix, whatever
/// the components were.
pub proof fn lemma_identity_has_app_scheme(
    host: Option<Seq<char>>,
    exe: Option<Seq<char>>,
    pid: nat,
)
    ensures
        identity_view(host, exe, pid).len() >= 6,
        identity_view(host, exe, pid).subrange(0, 6) == "app://"@,
{
    reveal_strlit("app://");
    assert(identity_view(host, exe, pid).subrange(0, 6) =~= "app://"@);
}

} // verus!
