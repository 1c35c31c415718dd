//! The control channel between the harness and the child under test: the state
//! both sides share, the moves each side makes on it, and the one-byte messages
//! of the pipe transport.
use vstd::prelude::*;

verus! {

/// Name of the shared-memory object that holds the channel state.
pub const SHM_NAME: &'static str = "/iterations-state";

/// How long the child waits for PROCEED before it gives up, in milliseconds.
pub const PROCEED_TIMEOUT_MS: u64 = 60000;

/// The state shared by the harness and the child.
#[derive(Clone, Copy, Debug, PartialEq, Eq, Structural)]
pub struct SharedState {
    /// Windows the child may still open.
    pub iterations: usize,
    /// The harness sent PROCEED and the child has not picked it up yet.
    pub should_start: bool,
    /// The child announced READY and waits for PROCEED.
    pub ready: bool,
    /// The child is in its hot region.
    pub measuring: bool,
}

/// A move on the shared state, by either side.
#[derive(Clone, Copy, Debug, PartialEq, Eq, Structural)]
pub enum ChannelOp {
    /// Child: take one window and announce READY.
    Claim,
    /// Harness: send PROCEED.
    Proceed,
    /// Child: pick up PROCEED and enter the hot region.
    Begin,
    /// Child: leave the hot region (DONE).
    End,
}

/// The state after `op`, and whether the move took a window.
pub open spec fn apply(s: SharedState, op: ChannelOp) -> (SharedState, bool) {
    match op {
        ChannelOp::Claim => if s.iterations == 0 {
            (s, false)
        } else {
            (SharedState { iterations: (s.iterations - 1) as usize, ready: true, ..s }, true)
        },
        ChannelOp::Proceed => (SharedState { should_start: true, ready: false, ..s }, false),
        ChannelOp::Begin => if s.should_start {
            (SharedState { measuring: true, should_start: false, ..s }, false)
        } else {
            (s, false)
        },
        ChannelOp::End => (SharedState { measuring: false, ..s }, false),
    }
}

/// The state after the moves `ops`, from `s`.
pub open spec fn run(s: SharedState, ops: Seq<ChannelOp>) -> SharedState
    decreases ops.len(),
{
    if ops.len() == 0 {
        s
    } else {
        apply(run(s, ops.drop_last()), ops.last()).0
    }
}

/// How many windows the moves `ops` took, from `s`.
pub open spec fn claims(s: SharedState, ops: Seq<ChannelOp>) -> nat
    decreases ops.len(),
{
    if ops.len() == 0 {
        0
    } else {
        claims(s, ops.drop_last()) + if apply(run(s, ops.drop_last()), ops.last()).1 {
            1nat
        } else {
            0
        }
    }
}

impl SharedState {
    /// A fresh state: no windows, no flags.
    pub fn new() -> (r: SharedState)
        ensures
            r == (SharedState { iterations: 0, should_start: false, ready: false, measuring: false }),
    {
        SharedState { iterations: 0, should_start: false, ready: false, measuring: false }
    }

    /// Harness: allow `count` windows and clear every flag.
    pub fn set_iterations(&mut self, count: usize)
        ensures
            *final(self) == (SharedState {
                iterations: count,
                should_start: false,
                ready: false,
                measuring: false,
            }),
    {
        self.iterations = count;
        self.should_start = false;
        self.measuring = false;
        self.ready = false;
    }

    /// Windows the child may still open.
    pub fn get_iterations(&self) -> (r: usize)
        ensures
            r == self.iterations,
    {
        self.iterations
    }

    /// Whether the child waits for PROCEED.
    pub fn is_ready(&self) -> (r: bool)
        ensures
            r == self.ready,
    {
        self.ready
    }

    /// Whether the child is in its hot region.
    pub fn is_measuring(&self) -> (r: bool)
        ensures
            r == self.measuring,
    {
        self.measuring
    }

    /// Whether the child is out of its hot region.
    pub fn is_complete(&self) -> (r: bool)
        ensures
            r == !self.measuring,
    {
        !self.measuring
    }

    /// Harness: send PROCEED.
    pub fn signal_proceed(&mut self)
        ensures
            *final(self) == apply(*old(self), ChannelOp::Proceed).0,
    {
        self.should_start = true;
        self.ready = false;
    }

    /// Child: take one window and announce READY; false, with nothing changed,
    /// when no window is left.
    pub fn claim(&mut self) -> (r: bool)
        ensures
            (*final(self), r) == apply(*old(self), ChannelOp::Claim),
    {
        if self.iterations == 0 {
            return false;
        }
        self.iterations = self.iterations - 1;
        self.ready = true;
        true
    }

    /// Child: enter the hot region if PROCEED was sent; false, with nothing
    /// changed, otherwise.
    pub fn begin(&mut self) -> (r: bool)
        ensures
            *final(self) == apply(*old(self), ChannelOp::Begin).0,
            r == old(self).should_start,
    {
        if self.should_start {
            self.measuring = true;
            self.should_start = false;
            true
        } else {
            false
        }
    }

    /// Child: leave the hot region.
    pub fn mark_end(&mut self)
        ensures
            *final(self) == apply(*old(self), ChannelOp::End).0,
    {
        self.measuring = false;
    }
}

/// Whatever both sides do, the windows taken and the windows left add up to the
/// windows allowed, so the child opens at most as many windows as the harness
/// allowed, and exactly as many once a claim is refused; and the count of
/// windows left never grows.
pub proof fn lemma_windows_bounded(s: SharedState, ops: Seq<ChannelOp>)
    ensures
        run(s, ops).iterations + claims(s, ops) == s.iterations,
        ops.len() > 0 && ops.last() == ChannelOp::Claim && !apply(
            run(s, ops.drop_last()),
            ChannelOp::Claim,
        ).1 ==> claims(s, ops) == s.iterations,
        forall|j: int, k: int|
            0 <= j <= k <= ops.len() ==> #[trigger] run(s, ops.take(j)).iterations >= #[trigger] run(
                s,
                ops.take(k),
            ).iterations,
{
    lemma_windows_sum(s, ops);
    if ops.len() > 0 {
        lemma_windows_sum(s, ops.drop_last());
    }
    assert forall|j: int, k: int|
        0 <= j <= k <= ops.len() implies #[trigger] run(s, ops.take(j)).iterations >= #[trigger] run(
        s,
        ops.take(k),
    ).iterations by {
        lemma_windows_sum(s, ops.take(j));
        lemma_windows_sum(s, ops.take(k));
        lemma_claims_prefix(s, ops.take(k), j);
        assert(ops.take(k).take(j) =~= ops.take(j));
    }
}

/// `k` claims in a row.
pub open spec fn claims_in_a_row(k: nat) -> Seq<ChannelOp> {
    Seq::new(k, |i: int| ChannelOp::Claim)
}

/// After the harness allows `n` windows, `k` claims in a row take `min(k, n)`
/// windows: each of the first `n` claims takes one, every later claim is
/// refused, and `n - min(k, n)` windows are left.
pub proof fn lemma_claims_in_a_row(s: SharedState, k: nat)
    ensures
        claims(s, claims_in_a_row(k)) == if k <= s.iterations {
            k
        } else {
            s.iterations as nat
        },
        run(s, claims_in_a_row(k)).iterations == s.iterations - (if k <= s.iterations {
            k
        } else {
            s.iterations as nat
        }),
        forall|j: int|
            0 <= j < k ==> (#[trigger] apply(run(s, claims_in_a_row(j as nat)), ChannelOp::Claim)).1
                == (j < s.iterations),
    decreases k,
{
    if k > 0 {
        lemma_claims_in_a_row(s, (k - 1) as nat);
        assert(claims_in_a_row(k).drop_last() =~= claims_in_a_row((k - 1) as nat));
        assert forall|j: int|
            0 <= j < k implies (#[trigger] apply(run(s, claims_in_a_row(j as nat)), ChannelOp::Claim)).1
            == (j < s.iterations) by {
            if j < k - 1 {
            } else {
                assert(j == k - 1);
            }
        }
    }
}

proof fn lemma_windows_sum(s: SharedState, ops: Seq<ChannelOp>)
    ensures
        run(s, ops).iterations + claims(s, ops) == s.iterations,
    decreases ops.len(),
{
    if ops.len() > 0 {
        lemma_windows_sum(s, ops.drop_last());
    }
}

proof fn lemma_claims_prefix(s: SharedState, ops: Seq<ChannelOp>, j: int)
    requires
        0 <= j <= ops.len(),
    ensures
        claims(s, ops.take(j)) <= claims(s, ops),
    decreases ops.len() - j,
{
    if j < ops.len() {
        lemma_claims_prefix(s, ops, j + 1);
        assert(ops.take(j + 1).drop_last() =~= ops.take(j));
    } else {
        assert(ops.take(j) =~= ops);
    }
}

/// What the waiting child does on one poll for PROCEED.
#[derive(Clone, Copy, Debug, PartialEq, Eq, Structural)]
pub enum Poll {
    /// PROCEED arrived: enter the hot region.
    Proceed,
    /// Keep waiting.
    Wait,
    /// Waited too long: report that no window opens.
    GiveUp,
}

/// One poll of the waiting child, `waited_ms` after it announced READY.
pub fn poll_proceed(should_start: bool, waited_ms: u64) -> (r: Poll)
    ensures
        should_start ==> r == Poll::Proceed,
        !should_start && waited_ms > PROCEED_TIMEOUT_MS ==> r == Poll::GiveUp,
        !should_start && waited_ms <= PROCEED_TIMEOUT_MS ==> r == Poll::Wait,
{
    if should_start {
        Poll::Proceed
    } else if waited_ms > PROCEED_TIMEOUT_MS {
        Poll::GiveUp
    } else {
        Poll::Wait
    }
}

/// A message of the pipe transport.
#[derive(Clone, Copy, Debug, PartialEq, Eq, Structural)]
pub enum Message {
    /// Harness to child: enter the hot region.
    Proceed,
    /// Harness to child: no further windows.
    Abort,
    /// Child to harness: at the boundary, waiting for PROCEED.
    Ready,
    /// Child to harness: hot region finished.
    Done,
}

/// The byte that carries a message.
pub open spec fn spec_message_byte(m: Message) -> u8 {
    match m {
        Message::Abort => 0,
        _ => 1,
    }
}

/// The byte that carries a message on its pipe.
pub fn message_byte(m: Message) -> (r: u8)
    ensures
        r == spec_message_byte(m),
{
    match m {
        Message::Abort => 0,
        _ => 1,
    }
}

/// The message a byte read from the control pipe carries.
pub fn decode_control(b: u8) -> (r: Message)
    ensures
        r == (if b == 0 { Message::Abort } else { Message::Proceed }),
        spec_message_byte(r) == b || b > 1,
{
    if b == 0 { Message::Abort } else { Message::Proceed }
}

/// What `start_measurement` returns in the child: 1 when READY was written and
/// a PROCEED byte came back, 0 on an I/O failure or ABORT.
pub fn start_result(ready_written: bool, reply: Option<u8>) -> (r: i32)
    ensures
        r == 1 <==> ready_written && (reply matches Some(b) && b != 0),
        r == 0 || r == 1,
{
    if !ready_written {
        return 0;
    }
    match reply {
        Some(b) => if b == 0 { 0 } else { 1 },
        None => 0,
    }
}

/// Whether `c` is an ASCII digit.
pub open spec fn is_digit(c: char) -> bool {
    '0' <= c && c <= '9'
}

/// The number the ASCII digits `s` spell, most significant first.
pub open spec fn digits_value(s: Seq<char>) -> int
    decreases s.len(),
{
    if s.len() == 0 {
        0
    } else {
        digits_value(s.drop_last()) * 10 + (s.last() as int - '0' as int)
    }
}

/// A non-empty run of ASCII digits.
pub open spec fn all_digits(s: Seq<char>) -> bool {
    s.len() > 0 && forall|i: int| 0 <= i < s.len() ==> is_digit(#[trigger] s[i])
}

/// The 32-bit integer that `s` spells in decimal, with an optional sign; nothing
/// when `s` is not such a number or the number does not fit.
pub open spec fn spec_parse_i32(s: Seq<char>) -> Option<i32> {
    let neg = s.len() > 0 && s[0] == '-';
    let body = if s.len() > 0 && (s[0] == '-' || s[0] == '+') {
        s.drop_first()
    } else {
        s
    };
    let v = if neg {
        -digits_value(body)
    } else {
        digits_value(body)
    };
    if all_digits(body) && i32::MIN <= v && v <= i32::MAX {
        Some(v as i32)
    } else {
        None
    }
}

/// Parses a file descriptor number handed to the child in its environment.
pub fn parse_fd(s: &str) -> (r: Option<i32>)
    ensures
        r == spec_parse_i32(s@),
{
    let n = s.unicode_len();
    let mut start: usize = 0;
    let mut neg = false;
    if n > 0 {
        let c = s.get_char(0);
        if c == '-' {
            neg = true;
            start = 1;
        } else if c == '+' {
            start = 1;
        }
    }
    let ghost body = s@.subrange(start as int, n as int);
    assert(body =~= (if s@.len() > 0 && (s@[0] == '-' || s@[0] == '+') {
        s@.drop_first()
    } else {
        s@
    }));
    if start == n {
        return None;
    }
    let cap: i64 = 2147483649;
    let mut acc: i64 = 0;
    let mut i: usize = start;
    while i < n
        invariant
            n == s@.len(),
            start <= i <= n,
            body == s@.subrange(start as int, n as int),
            body == (if s@.len() > 0 && (s@[0] == '-' || s@[0] == '+') {
                s@.drop_first()
            } else {
                s@
            }),
            neg == (s@.len() > 0 && s@[0] == '-'),
            forall|k: int| start <= k < i ==> is_digit(#[trigger] s@[k]),
            0 <= acc <= cap,
            cap == 2147483649,
            acc == (if digits_value(s@.subrange(start as int, i as int)) < cap {
                digits_value(s@.subrange(start as int, i as int))
            } else {
                cap as int
            }),
            digits_value(s@.subrange(start as int, i as int)) >= 0,
        decreases n - i,
    {
        let c = s.get_char(i);
        if !('0' <= c && c <= '9') {
            assert(body[i - start] == c);
            return None;
        }
        let d = (c as u32 - '0' as u32) as i64;
        let ghost prev = digits_value(s@.subrange(start as int, i as int));
        assert(s@.subrange(start as int, i + 1).drop_last() =~= s@.subrange(start as int, i as int));
        let next = acc * 10 + d;
        acc = if next < cap { next } else { cap };
        proof {
            let v = prev * 10 + d;
            assert(digits_value(s@.subrange(start as int, i + 1)) == v);
            if prev >= cap {
                assert(prev * 10 >= cap * 10) by (nonlinear_arith)
                    requires
                        prev >= cap,
                ;
            } else {
                assert(prev * 10 >= 0) by (nonlinear_arith)
                    requires
                        prev >= 0,
                ;
            }
        }
        i = i + 1;
    }
    assert(s@.subrange(start as int, i as int) =~= body);
    assert(all_digits(body));
    if neg {
        if acc > 2147483648 {
            None
        } else {
            Some((-acc) as i32)
        }
    } else {
        if acc > 2147483647 {
            None
        } else {
            Some(acc as i32)
        }
    }
}

} // verus!
