//! The game state and its text form: each figure is written into the message as
//! `<label> <digits> <unit>` on a line of its own, and read back from whatever
//! text the next interaction carries.
use vstd::prelude::*;

use crate::interactions::InteractionRequest;
use crate::text::{
    chars_of, decimal, is_digit, lemma_decimal, parse_u64_chars,
    parse_u64_spec, push_decimal,
};

verus! {

pub const BANK_PREFIX: &'static str = "You have:";

pub const BANK_SUFFIX: &'static str = ":shell:s";

pub const BET_PREFIX: &'static str = "You are betting:";

pub const BET_SUFFIX: &'static str = ":shell:s";

pub const INSP_PREFIX: &'static str = "You have:";

pub const INSP_SUFFIX: &'static str = ":squid:s";

/// A player's figures: shells held, shells staked on the next roll, and squids
/// ("inspiration") that pay for a proof.
#[derive(Clone, Copy, Debug, PartialEq, Eq, Structural)]
pub struct GameState {
    pub bet: u64,
    pub bank: u64,
    pub insp: u64,
}

/// One figure as it is written: `<prefix> <n> <suffix>`.
pub open spec fn stat_text(prefix: Seq<char>, n: u64, suffix: Seq<char>) -> Seq<char> {
    prefix + seq![' '] + decimal(n as nat) + seq![' '] + suffix
}

/// The text form of a state: bank, bet and inspiration, one line each.
pub open spec fn encode_spec(g: GameState) -> Seq<char> {
    stat_text(BANK_PREFIX@, g.bank, BANK_SUFFIX@) + seq!['\n'] + stat_text(
        BET_PREFIX@,
        g.bet,
        BET_SUFFIX@,
    ) + seq!['\n'] + stat_text(INSP_PREFIX@, g.insp, INSP_SUFFIX@) + seq!['\n']
}

/// The number of digits in the run of `hay` that starts at `j`.
pub open spec fn digit_run(hay: Seq<char>, j: int) -> nat
    decreases hay.len() - j,
{
    if 0 <= j < hay.len() && is_digit(hay[j]) {
        1 + digit_run(hay, j + 1)
    } else {
        0
    }
}

/// Where `hay` holds `<prefix> [0-9]* <suffix>` from position `i`, the digits.
pub open spec fn stat_at(hay: Seq<char>, prefix: Seq<char>, suffix: Seq<char>, i: int) -> Option<
    Seq<char>,
> {
    let head = prefix + seq![' '];
    let tail = seq![' '] + suffix;
    let j = i + head.len();
    let k = j + digit_run(hay, j);
    if 0 <= i && k + tail.len() <= hay.len() && hay.subrange(i, j) == head && hay.subrange(
        k,
        k + tail.len(),
    ) == tail {
        Some(hay.subrange(j, k))
    } else {
        None
    }
}

/// The digits of the leftmost `<prefix> [0-9]* <suffix>` in `hay` at or after `i`.
pub open spec fn first_stat_from(hay: Seq<char>, prefix: Seq<char>, suffix: Seq<char>, i: int) -> Option<
    Seq<char>,
>
    decreases hay.len() + 1 - i,
{
    if i < 0 || i > hay.len() {
        None
    } else if stat_at(hay, prefix, suffix, i) is Some {
        stat_at(hay, prefix, suffix, i)
    } else {
        first_stat_from(hay, prefix, suffix, i + 1)
    }
}

/// The figure that `hay` shows between `prefix` and `suffix`: the leftmost
/// occurrence decides, and it counts only where its digits make a `u64`.
pub open spec fn recognize_spec(hay: Seq<char>, prefix: Seq<char>, suffix: Seq<char>) -> Option<
    u64,
> {
    match first_stat_from(hay, prefix, suffix, 0) {
        Some(ds) => parse_u64_spec(ds),
        None => None,
    }
}

pub open spec fn figure_or_zero(r: Option<u64>) -> u64 {
    match r {
        Some(n) => n,
        None => 0,
    }
}

/// The state that a message text stands for; a figure that is missing or
/// unreadable counts as zero.
pub open spec fn decode_spec(hay: Seq<char>) -> GameState {
    GameState {
        bank: figure_or_zero(recognize_spec(hay, BANK_PREFIX@, BANK_SUFFIX@)),
        bet: figure_or_zero(recognize_spec(hay, BET_PREFIX@, BET_SUFFIX@)),
        insp: figure_or_zero(recognize_spec(hay, INSP_PREFIX@, INSP_SUFFIX@)),
    }
}

/// Whether `hay[at..]` starts with `pat`.
fn matches_at(hay: &Vec<char>, pat: &Vec<char>, at: usize) -> (r: bool)
    requires
        at <= hay@.len(),
    ensures
        r == (at + pat@.len() <= hay@.len() && hay@.subrange(at as int, at + pat@.len()) == pat@),
{
    if pat.len() > hay.len() - at {
        return false;
    }
    let mut i: usize = 0;
    while i < pat.len()
        invariant
            i <= pat@.len(),
            at <= hay@.len(),
            at + pat@.len() <= hay.len(),
            forall|m: int| 0 <= m < i ==> hay@[at + m] == pat@[m],
        decreases pat@.len() - i,
    {
        if hay[at + i] != pat[i] {
            assert(hay@.subrange(at as int, at + pat@.len())[i as int] != pat@[i as int]);
            return false;
        }
        i = i + 1;
    }
    assert(hay@.subrange(at as int, at + pat@.len()) =~= pat@);
    true
}

/// The number of digits in the run of `hay` that starts at `j`.
fn digit_run_len(hay: &Vec<char>, j: usize) -> (r: usize)
    requires
        j <= hay@.len(),
    ensures
        r == digit_run(hay@, j as int),
        j + r <= hay@.len(),
{
    let mut k: usize = hay.len();
    let mut e: usize = j;
    while e < hay.len() && '0' <= hay[e] && hay[e] <= '9'
        invariant
            j <= e <= hay@.len(),
            forall|m: int| j <= m < e ==> is_digit(#[trigger] hay@[m]),
        decreases hay@.len() - e,
    {
        e = e + 1;
    }
    proof {
        lemma_digit_run_exact(hay@, j as int, e as int);
    }
    e - j
}

/// A run of digits from `j` that ends before `e` has length `e - j`.
pub proof fn lemma_digit_run_exact(hay: Seq<char>, j: int, e: int)
    requires
        0 <= j <= e <= hay.len(),
        forall|m: int| j <= m < e ==> is_digit(#[trigger] hay[m]),
        e == hay.len() || !is_digit(hay[e]),
    ensures
        digit_run(hay, j) == e - j,
    decreases e - j,
{
    if j < e {
        lemma_digit_run_exact(hay, j + 1, e);
    }
}

/// Reads the figure that `hay` shows between `prefix` and `suffix`, if any.
fn recognize_stat(hay: &Vec<char>, prefix: &str, suffix: &str) -> (r: Option<u64>)
    ensures
        r == recognize_spec(hay@, prefix@, suffix@),
{
    let mut head = chars_of(prefix);
    head.push(' ');
    let mut tail: Vec<char> = Vec::new();
    tail.push(' ');
    let sv = chars_of(suffix);
    let mut m: usize = 0;
    while m < sv.len()
        invariant
            m <= sv@.len(),
            tail@ == seq![' '] + sv@.take(m as int),
        decreases sv@.len() - m,
    {
        tail.push(sv[m]);
        m = m + 1;
        assert(tail@ =~= seq![' '] + sv@.take(m as int));
    }
    assert(sv@.take(m as int) =~= suffix@);
    assert(head@ =~= prefix@ + seq![' ']);
    let mut i: usize = 0;
    while i < hay.len()
        invariant
            i <= hay@.len(),
            head@ == prefix@ + seq![' '],
            tail@ == seq![' '] + suffix@,
            first_stat_from(hay@, prefix@, suffix@, 0) == first_stat_from(
                hay@,
                prefix@,
                suffix@,
                i as int,
            ),
        decreases hay@.len() - i,
    {
        if matches_at(hay, &head, i) {
            let j = i + head.len();
            let k = j + digit_run_len(hay, j);
            if matches_at(hay, &tail, k) {
                assert(stat_at(hay@, prefix@, suffix@, i as int) == Some(
                    hay@.subrange(j as int, k as int),
                ));
                return parse_u64_chars(hay, j, k);
            }
        }
        assert(stat_at(hay@, prefix@, suffix@, i as int) is None);
        i = i + 1;
    }
    assert(stat_at(hay@, prefix@, suffix@, i as int) is None);
    assert(first_stat_from(hay@, prefix@, suffix@, i + 1) is None);
    None
}

impl GameState {
    /// Writes the state as message text: bank, bet and inspiration, one line each.
    pub fn encode(&self) -> (r: String)
        ensures
            r@ == encode_spec(*self),
    {
        let mut r = String::new();
        fmt_stat(&mut r, BANK_PREFIX, self.bank, BANK_SUFFIX);
        r.append("\n");
        fmt_stat(&mut r, BET_PREFIX, self.bet, BET_SUFFIX);
        r.append("\n");
        fmt_stat(&mut r, INSP_PREFIX, self.insp, INSP_SUFFIX);
        r.append("\n");
        proof {
            reveal_strlit("\n");
        }
        assert(r@ =~= encode_spec(*self));
        r
    }

    /// Reads a state back out of message text. Each figure is found on its own;
    /// one that is missing or unreadable is zero.
    pub fn decode(text: &str) -> (r: GameState)
        ensures
            r == decode_spec(text@),
    {
        let hay = chars_of(text);
        let bank = match recognize_stat(&hay, BANK_PREFIX, BANK_SUFFIX) {
            Some(n) => n,
            None => 0,
        };
        let bet = match recognize_stat(&hay, BET_PREFIX, BET_SUFFIX) {
            Some(n) => n,
            None => 0,
        };
        let insp = match recognize_stat(&hay, INSP_PREFIX, INSP_SUFFIX) {
            Some(n) => n,
            None => 0,
        };
        GameState { bet, bank, insp }
    }
}

/// Appends one figure as `<prefix> <n> <suffix>`.
pub fn fmt_stat(out: &mut String, prefix: &str, n: u64, suffix: &str)
    ensures
        final(out)@ == old(out)@ + stat_text(prefix@, n, suffix@),
{
    proof {
        reveal_strlit(" ");
    }
    out.append(prefix);
    out.append(" ");
    push_decimal(out, n);
    out.append(" ");
    out.append(suffix);
    assert(final(out)@ =~= old(out)@ + stat_text(prefix@, n, suffix@));
}

} // verus!

verus! {

/// The labels as character sequences.
pub proof fn lemma_labels()
    ensures
        BANK_PREFIX@ == seq!['Y', 'o', 'u', ' ', 'h', 'a', 'v', 'e', ':'],
        INSP_PREFIX@ == seq!['Y', 'o', 'u', ' ', 'h', 'a', 'v', 'e', ':'],
        BET_PREFIX@ == seq![
            'Y', 'o', 'u', ' ', 'a', 'r', 'e', ' ', 'b', 'e', 't', 't', 'i', 'n', 'g', ':'
        ],
        BANK_SUFFIX@ == seq![':', 's', 'h', 'e', 'l', 'l', ':', 's'],
        BET_SUFFIX@ == seq![':', 's', 'h', 'e', 'l', 'l', ':', 's'],
        INSP_SUFFIX@ == seq![':', 's', 'q', 'u', 'i', 'd', ':', 's'],
{
    reveal_strlit("You have:");
    reveal_strlit("You are betting:");
    reveal_strlit(":shell:s");
    reveal_strlit(":squid:s");
    assert(BANK_PREFIX@ =~= seq!['Y', 'o', 'u', ' ', 'h', 'a', 'v', 'e', ':']);
    assert(BET_PREFIX@ =~= seq![
        'Y', 'o', 'u', ' ', 'a', 'r', 'e', ' ', 'b', 'e', 't', 't', 'i', 'n', 'g', ':'
    ]);
    assert(BANK_SUFFIX@ =~= seq![':', 's', 'h', 'e', 'l', 'l', ':', 's']);
    assert(INSP_SUFFIX@ =~= seq![':', 's', 'q', 'u', 'i', 'd', ':', 's']);
}

/// A decimal writing reads back as the number it writes.
pub proof fn lemma_parse_decimal(n: u64)
    ensures
        parse_u64_spec(decimal(n as nat)) == Some(n),
{
    lemma_decimal(n as nat);
    let d = decimal(n as nat);
    assert(is_digit(d[0]));
}

/// A figure line, read at its own start, yields its digits.
proof fn lemma_stat_at_line(
    t: Seq<char>,
    pre: Seq<char>,
    p: Seq<char>,
    n: u64,
    s: Seq<char>,
    post: Seq<char>,
)
    requires
        t == pre + stat_text(p, n, s) + post,
    ensures
        stat_at(t, p, s, pre.len() as int) == Some(decimal(n as nat)),
        digit_run(t, (pre.len() + p.len() + 1) as int) == decimal(n as nat).len(),
{
    lemma_decimal(n as nat);
    let d = decimal(n as nat);
    let l = stat_text(p, n, s);
    let i = pre.len() as int;
    let j = i + p.len() + 1;
    let e = j + d.len();
    assert forall|m: int| j <= m < e implies is_digit(#[trigger] t[m]) by {
        assert(t[m] == l[m - i]);
        assert(l[m - i] == d[m - j]);
    }
    assert(t[e] == l[e - i]);
    assert(l[e - i] == ' ');
    lemma_digit_run_exact(t, j, e);
    assert(t.subrange(i, j) =~= p + seq![' ']);
    assert(t.subrange(e, e + 1 + s.len()) =~= seq![' '] + s);
    assert(t.subrange(j, e) =~= d);
}

/// A figure found at `k` has its label's characters from `k` on.
pub proof fn lemma_stat_head_char(t: Seq<char>, q: Seq<char>, r: Seq<char>, k: int, m: int)
    requires
        0 <= m < q.len(),
        stat_at(t, q, r, k) is Some,
    ensures
        0 <= k + m < t.len(),
        t[k + m] == q[m],
{
    let head = q + seq![' '];
    assert(t.subrange(k, k + head.len())[m] == head[m]);
}

/// A figure can only be found where its label starts.
pub proof fn lemma_stat_needs_head(t: Seq<char>, q: Seq<char>, r: Seq<char>, k: int)
    requires
        q.len() > 0,
        stat_at(t, q, r, k) is Some,
    ensures
        0 <= k < t.len(),
        t[k] == q[0],
{
    let head = q + seq![' '];
    assert(t.subrange(k, k + head.len())[0] == head[0]);
}

/// No character of a figure line but its first is `Y`, where the label
/// and unit have no other `Y`.
proof fn lemma_line_body(p: Seq<char>, n: u64, s: Seq<char>, k: int)
    requires
        1 <= k < stat_text(p, n, s).len(),
        forall|m: int| 1 <= m < p.len() ==> p[m] != 'Y',
        forall|m: int| 0 <= m < s.len() ==> s[m] != 'Y',
    ensures
        stat_text(p, n, s)[k] != 'Y',
{
    lemma_decimal(n as nat);
    let d = decimal(n as nat);
    let l = stat_text(p, n, s);
    if k < p.len() {
        assert(l[k] == p[k]);
    } else if k == p.len() {
        assert(l[k] == ' ');
    } else if k < p.len() + 1 + d.len() {
        assert(l[k] == d[k - p.len() - 1]);
        assert(is_digit(d[k - p.len() - 1]));
    } else if k == p.len() + 1 + d.len() {
        assert(l[k] == ' ');
    } else {
        assert(l[k] == s[k - p.len() - 2 - d.len()]);
    }
}

/// The leftmost figure at or after `i` is the one at or after `m` where none
/// stands in between.
proof fn lemma_first_stat_skip(t: Seq<char>, q: Seq<char>, r: Seq<char>, i: int, m: int)
    requires
        0 <= i <= m <= t.len(),
        forall|k: int| i <= k < m ==> stat_at(t, q, r, k) is None,
    ensures
        first_stat_from(t, q, r, i) == first_stat_from(t, q, r, m),
    decreases m - i,
{
    if i < m {
        lemma_first_stat_skip(t, q, r, i + 1, m);
    }
}

/// A search that finds nothing at the start of a figure line goes on past it.
proof fn lemma_skip_line(
    t: Seq<char>,
    pre: Seq<char>,
    p: Seq<char>,
    n: u64,
    s: Seq<char>,
    post: Seq<char>,
    q: Seq<char>,
    r: Seq<char>,
)
    requires
        t == pre + stat_text(p, n, s) + seq!['\n'] + post,
        q.len() > 0,
        q[0] == 'Y',
        forall|m: int| 1 <= m < p.len() ==> p[m] != 'Y',
        forall|m: int| 0 <= m < s.len() ==> s[m] != 'Y',
        stat_at(t, q, r, pre.len() as int) is None,
    ensures
        first_stat_from(t, q, r, pre.len() as int) == first_stat_from(
            t,
            q,
            r,
            (pre.len() + stat_text(p, n, s).len() + 1) as int,
        ),
{
    let i = pre.len() as int;
    let l = stat_text(p, n, s);
    assert forall|k: int| i <= k < i + l.len() + 1 implies stat_at(t, q, r, k) is None by {
        if k > i {
            if k < i + l.len() {
                assert(t[k] == l[k - i]);
                lemma_line_body(p, n, s, k - i);
            } else {
                assert(t[k] == '\n');
            }
            if stat_at(t, q, r, k) is Some {
                lemma_stat_needs_head(t, q, r, k);
            }
        }
    }
    lemma_first_stat_skip(t, q, r, i, i + l.len() + 1);
}

/// No figure of any of the three kinds starts before `pre.len()` in `t`.
pub open spec fn no_figure_before(t: Seq<char>, n: int) -> bool {
    forall|k: int|
        0 <= k < n ==> {
            &&& (#[trigger] stat_at(t, BANK_PREFIX@, BANK_SUFFIX@, k)) is None
            &&& stat_at(t, BET_PREFIX@, BET_SUFFIX@, k) is None
            &&& stat_at(t, INSP_PREFIX@, INSP_SUFFIX@, k) is None
        }
}

/// Each label has its `Y` first and nowhere else; the units have none.
proof fn lemma_labels_have_one_y()
    ensures
        BANK_PREFIX@[0] == 'Y',
        BET_PREFIX@[0] == 'Y',
        forall|m: int| 1 <= m < BANK_PREFIX@.len() ==> BANK_PREFIX@[m] != 'Y',
        forall|m: int| 1 <= m < BET_PREFIX@.len() ==> BET_PREFIX@[m] != 'Y',
        forall|m: int| 0 <= m < BANK_SUFFIX@.len() ==> BANK_SUFFIX@[m] != 'Y',
        forall|m: int| 0 <= m < INSP_SUFFIX@.len() ==> INSP_SUFFIX@[m] != 'Y',
{
    lemma_labels();
}

/// The bank line, after text that holds no figure, gives the bank.
#[verifier::rlimit(60)]
proof fn lemma_bank_after(t: Seq<char>, pre: Seq<char>, g: GameState, rest: Seq<char>)
    requires
        t == pre + encode_spec(g) + rest,
        no_figure_before(t, pre.len() as int),
    ensures
        recognize_spec(t, BANK_PREFIX@, BANK_SUFFIX@) == Some(g.bank),
{
    lemma_labels();
    let bp = BANK_PREFIX@;
    let bs = BANK_SUFFIX@;
    let tp = BET_PREFIX@;
    let ts = BET_SUFFIX@;
    let ip = INSP_PREFIX@;
    let is = INSP_SUFFIX@;
    let nl = seq!['\n'];
    let l1 = stat_text(bp, g.bank, bs);
    let l2 = stat_text(tp, g.bet, ts);
    let l3 = stat_text(ip, g.insp, is);
    let p0 = pre.len() as int;
    assert forall|k: int| 0 <= k < p0 implies stat_at(t, bp, bs, k) is None by {}
    lemma_first_stat_skip(t, bp, bs, 0, p0);
    assert(t =~= pre + l1 + (nl + l2 + nl + l3 + nl + rest));
    lemma_stat_at_line(t, pre, bp, g.bank, bs, nl + l2 + nl + l3 + nl + rest);
    lemma_parse_decimal(g.bank);
}

/// The bet line, after text that holds no figure and the bank line, gives
/// the bet.
#[verifier::rlimit(60)]
proof fn lemma_bet_after(t: Seq<char>, pre: Seq<char>, g: GameState, rest: Seq<char>)
    requires
        t == pre + encode_spec(g) + rest,
        no_figure_before(t, pre.len() as int),
    ensures
        recognize_spec(t, BET_PREFIX@, BET_SUFFIX@) == Some(g.bet),
{
    lemma_labels();
    let bp = BANK_PREFIX@;
    let bs = BANK_SUFFIX@;
    let tp = BET_PREFIX@;
    let ts = BET_SUFFIX@;
    let ip = INSP_PREFIX@;
    let is = INSP_SUFFIX@;
    let nl = seq!['\n'];
    let l1 = stat_text(bp, g.bank, bs);
    let l2 = stat_text(tp, g.bet, ts);
    let l3 = stat_text(ip, g.insp, is);
    let p0 = pre.len() as int;
    lemma_labels_have_one_y();
    assert forall|k: int| 0 <= k < p0 implies stat_at(t, tp, ts, k) is None by {
        assert(stat_at(t, BANK_PREFIX@, BANK_SUFFIX@, k) is None);
    }
    lemma_first_stat_skip(t, tp, ts, 0, p0);
    let pre2 = pre + l1 + nl;
    assert(t =~= pre + l1 + nl + (l2 + nl + l3 + nl + rest));
    assert(t[p0 + 4] == l1[4]);
    assert(l1[4] == bp[4]);
    if stat_at(t, tp, ts, p0) is Some {
        let head = tp + seq![' '];
        assert(t.subrange(p0, p0 + head.len())[4] == head[4]);
    }
    lemma_skip_line(t, pre, bp, g.bank, bs, l2 + nl + l3 + nl + rest, tp, ts);
    assert(t =~= pre2 + l2 + (nl + l3 + nl + rest));
    lemma_stat_at_line(t, pre2, tp, g.bet, ts, nl + l3 + nl + rest);
    lemma_parse_decimal(g.bet);
}

/// The inspiration line, after text that holds no figure and the other two
/// lines, gives the inspiration.
#[verifier::rlimit(60)]
proof fn lemma_insp_after(t: Seq<char>, pre: Seq<char>, g: GameState, rest: Seq<char>)
    requires
        t == pre + encode_spec(g) + rest,
        no_figure_before(t, pre.len() as int),
    ensures
        recognize_spec(t, INSP_PREFIX@, INSP_SUFFIX@) == Some(g.insp),
{
    lemma_labels();
    let bp = BANK_PREFIX@;
    let bs = BANK_SUFFIX@;
    let tp = BET_PREFIX@;
    let ts = BET_SUFFIX@;
    let ip = INSP_PREFIX@;
    let is = INSP_SUFFIX@;
    let nl = seq!['\n'];
    let l1 = stat_text(bp, g.bank, bs);
    let l2 = stat_text(tp, g.bet, ts);
    let l3 = stat_text(ip, g.insp, is);
    let p0 = pre.len() as int;
    lemma_labels_have_one_y();
    assert forall|k: int| 0 <= k < p0 implies stat_at(t, ip, is, k) is None by {
        assert(stat_at(t, BANK_PREFIX@, BANK_SUFFIX@, k) is None);
    }
    lemma_first_stat_skip(t, ip, is, 0, p0);
    let pre2 = pre + l1 + nl;
    let pre3 = pre2 + l2 + nl;
    assert(t =~= pre + l1 + (nl + l2 + nl + l3 + nl + rest));
    let db = decimal(g.bank as nat);
    lemma_stat_at_line(t, pre, bp, g.bank, bs, nl + l2 + nl + l3 + nl + rest);
    assert(t =~= pre + l1 + nl + (l2 + nl + l3 + nl + rest));
    if stat_at(t, ip, is, p0) is Some {
        let k = p0 + bp.len() + 1 + db.len();
        assert(t.subrange(k, k + 1 + is.len())[3] == (seq![' '] + is)[3]);
        assert(t[k + 3] == l1[k - p0 + 3]);
    }
    lemma_skip_line(t, pre, bp, g.bank, bs, l2 + nl + l3 + nl + rest, ip, is);
    assert(t =~= pre2 + l2 + (nl + l3 + nl + rest));
    assert(t[pre2.len() + 4 as int] == l2[4]);
    assert(l2[4] == tp[4]);
    if stat_at(t, ip, is, pre2.len() as int) is Some {
        let head = ip + seq![' '];
        assert(t.subrange(pre2.len() as int, (pre2.len() + head.len()) as int)[4] == head[4]);
    }
    assert(t =~= pre2 + l2 + nl + (l3 + nl + rest));
    lemma_skip_line(t, pre2, tp, g.bet, ts, l3 + nl + rest, ip, is);
    assert(t =~= pre3 + l3 + (nl + rest));
    lemma_stat_at_line(t, pre3, ip, g.insp, is, nl + rest);
    lemma_parse_decimal(g.insp);
}

/// The text form of a state, after text that holds no figure and before any
/// text at all, reads back as that state.
pub proof fn lemma_decode_after(t: Seq<char>, pre: Seq<char>, g: GameState, rest: Seq<char>)
    requires
        t == pre + encode_spec(g) + rest,
        no_figure_before(t, pre.len() as int),
    ensures
        decode_spec(t) == g,
{
    lemma_bank_after(t, pre, g, rest);
    lemma_bet_after(t, pre, g, rest);
    lemma_insp_after(t, pre, g, rest);
}

/// Reading the text form of a state gives the state back.
pub proof fn lemma_decode_encode(g: GameState)
    ensures
        decode_spec(encode_spec(g)) == g,
{
    let t = encode_spec(g);
    assert(t =~= Seq::<char>::empty() + encode_spec(g) + Seq::<char>::empty());
    lemma_decode_after(t, Seq::<char>::empty(), g, Seq::<char>::empty());
}

} // verus!

verus! {

/// The acting player and the state that the message acted on shows.
pub struct InteractionState {
    pub user: String,
    pub game_state: GameState,
}

/// The id of the acting user, or `Unknown user`.
pub open spec fn request_user(req: InteractionRequest) -> Seq<char> {
    match req.member {
        Some(m) => m.user.id@,
        None => "Unknown user"@,
    }
}

/// The state that the message acted on shows.
pub open spec fn request_game(req: InteractionRequest) -> GameState {
    decode_spec(
        match req.message {
            Some(m) => m.content@,
            None => Seq::<char>::empty(),
        },
    )
}

impl InteractionState {
    /// The acting user's id and the state read from the message acted on.
    pub fn from_request(req: &InteractionRequest) -> (r: InteractionState)
        ensures
            r.user@ == request_user(*req),
            r.game_state == request_game(*req),
    {
        let content = req.message_content();
        InteractionState { user: req.get_user(), game_state: GameState::decode(content.as_str()) }
    }
}

/// The bank that `hay` shows, or zero where it shows none.
pub fn recognize_bank(hay: &str) -> (r: u64)
    ensures
        r == decode_spec(hay@).bank,
{
    GameState::decode(hay).bank
}

impl From<&String> for GameState {
    fn from(msg: &String) -> (r: GameState)
        ensures
            r == decode_spec(msg@),
    {
        GameState::decode(msg.as_str())
    }
}

impl vstd::std_specs::convert::FromSpecImpl<&String> for GameState {
    open spec fn obeys_from_spec() -> bool {
        true
    }

    open spec fn from_spec(msg: &String) -> GameState {
        decode_spec(msg@)
    }
}

} // verus!
