use vstd::prelude::*;
use crate::text::occurs_at_exec;

verus! {

// ---------------------------------------------------------------------------
// Decimal text
// ---------------------------------------------------------------------------

pub open spec fn digit_char(d: nat) -> char {
    if d == 0 { '0' } else if d == 1 { '1' } else if d == 2 { '2' } else if d == 3 { '3' }
    else if d == 4 { '4' } else if d == 5 { '5' } else if d == 6 { '6' } else if d == 7 { '7' }
    else if d == 8 { '8' } else { '9' }
}

/// The decimal digits of `n`, without leading zeros.
pub open spec fn decimal(n: nat) -> Seq<char>
    decreases n,
{
    if n < 10 {
        seq![digit_char(n)]
    } else {
        decimal(n / 10) + seq![digit_char(n % 10)]
    }
}

/// The number that a text of decimal digits stands for, most significant
/// digit first.
pub open spec fn digits_value(s: Seq<char>) -> int
    decreases s.len(),
{
    if s.len() == 0 {
        0
    } else {
        digits_value(s.drop_last()) * 10 + (s.last() as u32 - '0' as u32)
    }
}

/// A non-empty text of the characters `0` to `9`.
pub open spec fn is_digit_text(s: Seq<char>) -> bool {
    s.len() > 0 && forall|i: int| 0 <= i < s.len() ==> '0' <= #[trigger] s[i] <= '9'
}

proof fn lemma_digit_char_value(d: nat)
    requires
        d < 10,
    ensures
        digit_char(d) as u32 == '0' as u32 + d,
        '0' <= digit_char(d) <= '9',
{
    assert('0' as u32 == 48 && '1' as u32 == 49 && '2' as u32 == 50 && '3' as u32 == 51 && '4' as u32
        == 52 && '5' as u32 == 53 && '6' as u32 == 54 && '7' as u32 == 55 && '8' as u32 == 56
        && '9' as u32 == 57);
}

/// `decimal(n)` is the ordinary base-ten text of `n`: it consists of digits,
/// reads back as `n`, and has no leading zero (so it is what `format!("{n}")`
/// writes).
pub proof fn lemma_decimal_reads_back(n: nat)
    ensures
        is_digit_text(decimal(n)),
        digits_value(decimal(n)) == n,
        decimal(n)[0] == '0' ==> n == 0,
    decreases n,
{
    if n < 10 {
        lemma_digit_char_value(n);
        assert(decimal(n) == seq![digit_char(n)]);
        assert(seq![digit_char(n)].drop_last() =~= Seq::<char>::empty());
        assert(digits_value(seq![digit_char(n)]) == digits_value(Seq::<char>::empty()) * 10 + (
        digit_char(n) as u32 - '0' as u32));
    } else {
        lemma_decimal_reads_back(n / 10);
        let d = n % 10;
        let s = decimal(n);
        let h = decimal(n / 10);
        assert(s == h + seq![digit_char(d)]);
        assert(s.drop_last() =~= h);
        assert(s.last() == digit_char(d));
        lemma_digit_char_value(d);
        assert(digits_value(s) == digits_value(h) * 10 + d);
        vstd::arithmetic::div_mod::lemma_fundamental_div_mod(n as int, 10);
        assert forall|i: int| 0 <= i < s.len() implies '0' <= #[trigger] s[i] <= '9' by {
            if i < h.len() {
                assert(s[i] == h[i]);
            }
        }
        assert(s[0] == h[0]);
    }
}

fn digit_text(d: u64) -> (r: &'static str)
    requires
        d < 10,
    ensures
        r@ == seq![digit_char(d as nat)],
{
    proof {
        reveal_strlit("0");
        reveal_strlit("1");
        reveal_strlit("2");
        reveal_strlit("3");
        reveal_strlit("4");
        reveal_strlit("5");
        reveal_strlit("6");
        reveal_strlit("7");
        reveal_strlit("8");
        reveal_strlit("9");
    }
    if d == 0 { "0" } else if d == 1 { "1" } else if d == 2 { "2" } else if d == 3 { "3" }
    else if d == 4 { "4" } else if d == 5 { "5" } else if d == 6 { "6" } else if d == 7 { "7" }
    else if d == 8 { "8" } else { "9" }
}

/// Writes `n` in decimal.
pub fn decimal_text(n: u64) -> (r: String)
    ensures
        r@ == decimal(n as nat),
        is_digit_text(r@),
        digits_value(r@) == n,
        r@[0] == '0' ==> n == 0,
    decreases n,
{
    proof {
        lemma_decimal_reads_back(n as nat);
    }
    if n < 10 {
        String::from_str(digit_text(n))
    } else {
        let head = decimal_text(n / 10);
        head.concat(digit_text(n % 10))
    }
}

// ---------------------------------------------------------------------------
// Text replacement
// ---------------------------------------------------------------------------

/// `s` with every occurrence of `from` replaced by `to`, scanning from the
/// left and not re-reading replaced text (`from` is not empty).
pub open spec fn replaced(s: Seq<char>, from: Seq<char>, to: Seq<char>) -> Seq<char>
    decreases s.len(),
{
    if s.len() == 0 {
        seq![]
    } else if from.len() > 0 && from.len() <= s.len() && s.take(from.len() as int) == from {
        to + replaced(s.skip(from.len() as int), from, to)
    } else {
        seq![s[0]] + replaced(s.drop_first(), from, to)
    }
}

/// Replaces every occurrence of `from` in `s` by `to`.
pub fn replace_all(s: &str, from: &str, to: &str) -> (r: String)
    requires
        from@.len() > 0,
    ensures
        r@ == replaced(s@, from@, to@),
{
    let n = s.unicode_len();
    let m = from.unicode_len();
    let mut out = String::new();
    let mut i: usize = 0;
    assert(s@.skip(0) =~= s@);
    while i < n
        invariant
            n == s@.len(),
            m == from@.len(),
            m > 0,
            i <= n,
            out@ + replaced(s@.skip(i as int), from@, to@) == replaced(s@, from@, to@),
        decreases n - i,
    {
        let ghost rest = s@.skip(i as int);
        if occurs_at_exec(s, n, from, m, i) {
            proof {
                assert(rest.take(m as int) =~= s@.subrange(i as int, i + m));
                assert(rest.skip(m as int) =~= s@.skip(i + m));
                assert(out@ + to@ + replaced(s@.skip(i + m), from@, to@) =~= out@ + replaced(rest, from@, to@));
            }
            out.append(to);
            i = i + m;
        } else {
            proof {
                if m <= rest.len() && rest.take(m as int) == from@ {
                    assert(rest.take(m as int) =~= s@.subrange(i as int, i + m));
                }
                assert(rest.drop_first() =~= s@.skip(i + 1));
                assert(s@.subrange(i as int, i + 1) =~= seq![rest[0]]);
                assert(out@ + seq![rest[0]] + replaced(s@.skip(i + 1), from@, to@) =~= out@ + replaced(rest, from@, to@));
            }
            out.append(s.substring_char(i, i + 1));
            i = i + 1;
        }
    }
    assert(s@.skip(n as int) =~= Seq::<char>::empty());
    assert(out@ + Seq::<char>::empty() =~= out@);
    out
}

// ---------------------------------------------------------------------------
// The proxy auto-configuration file
// ---------------------------------------------------------------------------

/// The port that the PAC file points at: the application's own mixed port if
/// set, else the core's.
pub fn pac_port(verge_mixed_port: Option<u16>, clash_mixed_port: u16) -> (r: u16)
    ensures
        r == match verge_mixed_port {
            Some(p) => p,
            None => clash_mixed_port,
        },
{
    match verge_mixed_port {
        Some(p) => p,
        None => clash_mixed_port,
    }
}

/// Fills the port into a PAC file: every `%mixed-port%` becomes the port in decimal.
pub fn render_pac(content: &str, port: u16) -> (r: String)
    ensures
        r@ == replaced(content@, "%mixed-port%"@, decimal(port as nat)),
{
    let port_text = decimal_text(port as u64);
    proof {
        reveal_strlit("%mixed-port%");
    }
    replace_all(content, "%mixed-port%", port_text.as_str())
}

// ---------------------------------------------------------------------------
// The single-instance check
// ---------------------------------------------------------------------------

/// What a second instance does when the first one already holds the port.
#[derive(Debug, Clone, PartialEq, Eq)]
pub enum SingletonPlan {
    /// The port is free: this is the only instance; go on starting.
    Proceed,
    /// Ask the running instance (at this URL) to show its window, then quit.
    ShowRunning { request: String },
    /// Hand the deep link to the running instance (at this URL), then quit.
    ForwardLink { request: String },
    /// Quit without telling the running instance anything.
    Quit,
}

/// `s` starts with `p`.
pub open spec fn starts_with(s: Seq<char>, p: Seq<char>) -> bool {
    p.len() <= s.len() && s.take(p.len() as int) == p
}

/// The local address of the running instance's command `path`.
pub open spec fn command_url(port: u16, path: Seq<char>) -> Seq<char> {
    "http://127.0.0.1:"@ + decimal(port as nat) + path
}

/// Decides the single-instance check. `args` are the process arguments
/// (program name first); `macos` tells whether this is macOS, where deep links
/// reach the running instance by other means.
pub fn check_singleton(port: u16, port_available: bool, args: &Vec<String>, macos: bool) -> (r:
    SingletonPlan)
    ensures
        port_available ==> r == SingletonPlan::Proceed,
        !port_available && args@.len() <= 1 ==> (r matches SingletonPlan::ShowRunning { request }
            && request@ == command_url(port, "/commands/visible"@)),
        !port_available && args@.len() > 1 && !macos && starts_with(args@[1]@, "clash:"@) ==> (
        r matches SingletonPlan::ForwardLink { request } && request@ == command_url(
            port,
            "/commands/scheme?param="@,
        ) + args@[1]@),
        !port_available && args@.len() > 1 && (macos || !starts_with(args@[1]@, "clash:"@)) ==> r
            == SingletonPlan::Quit,
{
    if port_available {
        return SingletonPlan::Proceed;
    }
    let base = String::from_str("http://127.0.0.1:").concat(decimal_text(port as u64).as_str());
    if args.len() <= 1 {
        return SingletonPlan::ShowRunning { request: base.concat("/commands/visible") };
    }
    if macos {
        return SingletonPlan::Quit;
    }
    let param = args[1].as_str();
    let n = param.unicode_len();
    let prefix = "clash:";
    let m = prefix.unicode_len();
    if occurs_at_exec(param, n, prefix, m, 0) {
        proof {
            assert(param@.subrange(0, m as int) =~= param@.take(m as int));
        }
        let request = base.concat("/commands/scheme?param=").concat(param);
        SingletonPlan::ForwardLink { request }
    } else {
        proof {
            if m <= n {
                assert(param@.subrange(0, m as int) =~= param@.take(m as int));
            }
        }
        SingletonPlan::Quit
    }
}

// ---------------------------------------------------------------------------
// Stopping the embedded server
// ---------------------------------------------------------------------------

#[verifier::external_type_specification]
#[verifier::external_body]
pub struct ExNotify(tokio::sync::Notify);

/// Calls `tokio::sync::Notify::notify_waiters`: wakes every task that is
/// waiting on the signal now; nothing is stored for tasks that wait later.
/// Nothing is stated of the signal's state, which Verus cannot see.
#[verifier::external_body]
fn notify_waiters(signal: &tokio::sync::Notify) {
    signal.notify_waiters()
}

/// Asks the embedded server to stop: the server's task waits on `signal`
/// beside the server, and stops serving when it is woken.
pub fn shutdown_embed_server(signal: &tokio::sync::Notify) {
    notify_waiters(signal);
}

} // verus!
