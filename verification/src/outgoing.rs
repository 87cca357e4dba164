//! Tracking of outgoing (client to widget) requests: every request gets a
//! fresh header id and a one-shot delivery slot; a response is routed back
//! to its slot by header id alone; on disconnect every pending slot is
//! drained.

use vstd::prelude::*;

use vstd::arithmetic::div_mod::lemma_fundamental_div_mod;

use crate::text::str_eq;

verus! {

/// The character a decimal digit is written as.
pub open spec fn digit_char(d: nat) -> char {
    if d == 0 {
        '0'
    } else if d == 1 {
        '1'
    } else if d == 2 {
        '2'
    } else if d == 3 {
        '3'
    } else if d == 4 {
        '4'
    } else if d == 5 {
        '5'
    } else if d == 6 {
        '6'
    } else if d == 7 {
        '7'
    } else if d == 8 {
        '8'
    } else {
        '9'
    }
}

/// The decimal numeral of `n`, most significant digit first, without
/// leading zeros.
pub open spec fn dec_digits(n: nat) -> Seq<char>
    decreases n,
{
    if n < 10 {
        seq![digit_char(n)]
    } else {
        dec_digits(n / 10).push(digit_char(n % 10))
    }
}

/// The decimal digit a character stands for, with 10 for non-digits.
pub open spec fn char_digit(c: char) -> nat {
    if c == '0' {
        0
    } else if c == '1' {
        1
    } else if c == '2' {
        2
    } else if c == '3' {
        3
    } else if c == '4' {
        4
    } else if c == '5' {
        5
    } else if c == '6' {
        6
    } else if c == '7' {
        7
    } else if c == '8' {
        8
    } else if c == '9' {
        9
    } else {
        10
    }
}

/// The value a digit sequence denotes.
pub open spec fn dec_value(s: Seq<char>) -> nat
    decreases s.len(),
{
    if s.len() == 0 {
        0
    } else {
        dec_value(s.drop_last()) * 10 + char_digit(s.last())
    }
}

/// The digit characters of the literal digit table, in order.
proof fn lemma_digit_table()
    ensures
        "0123456789"@.len() == 10,
        forall|d: int| 0 <= d < 10 ==> "0123456789"@[d] == digit_char(d as nat),
{
    reveal_strlit("0123456789");
}

/// A numeral denotes the number it was written from.
pub proof fn lemma_dec_digits_value(n: nat)
    ensures
        dec_value(dec_digits(n)) == n,
    decreases n,
{
    if n < 10 {
        let s = dec_digits(n);
        assert(s == seq![digit_char(n)]);
        assert(s.drop_last() =~= Seq::<char>::empty());
        assert(dec_value(Seq::<char>::empty()) == 0);
        assert(s.last() == digit_char(n));
        assert(dec_value(s) == dec_value(s.drop_last()) * 10 + char_digit(s.last()));
        assert(char_digit(digit_char(n)) == n);
    } else {
        assert(n / 10 < n) by (nonlinear_arith)
            requires
                n >= 10,
        ;
        lemma_dec_digits_value(n / 10);
        let s = dec_digits(n);
        assert(s == dec_digits(n / 10).push(digit_char(n % 10)));
        assert(s.drop_last() =~= dec_digits(n / 10));
        assert(s.last() == digit_char(n % 10));
        assert(char_digit(digit_char(n % 10)) == n % 10);
        assert(dec_value(s) == dec_value(s.drop_last()) * 10 + char_digit(s.last()));
        assert(dec_value(s) == (n / 10) * 10 + n % 10);
        lemma_fundamental_div_mod(n as int, 10);
        assert((n / 10) * 10 + n % 10 == n);
    }
}

/// Distinct numbers have distinct numerals: the ids this module issues
/// never repeat within a session.
pub proof fn lemma_dec_digits_injective(m: nat, n: nat)
    requires
        m != n,
    ensures
        dec_digits(m) != dec_digits(n),
{
    lemma_dec_digits_value(m);
    lemma_dec_digits_value(n);
}

/// The decimal numeral of `n`, as a string.
pub fn u64_to_dec_string(n: u64) -> (r: String)
    ensures
        r@ == dec_digits(n as nat),
    decreases n,
{
    let digits = "0123456789";
    proof {
        lemma_digit_table();
    }
    if n < 10 {
        let d = n as usize;
        let r = digits.substring_char(d, d + 1).to_owned();
        proof {
            assert(r@ =~= seq![digit_char(n as nat)]);
        }
        r
    } else {
        proof {
            assert(n / 10 < n) by (nonlinear_arith)
                requires
                    n >= 10,
            ;
        }
        let mut r = u64_to_dec_string(n / 10);
        let d = (n % 10) as usize;
        let ds = digits.substring_char(d, d + 1);
        r.append(ds);
        proof {
            assert(r@ =~= dec_digits(n as nat));
        }
        r
    }
}

/// The pending outgoing requests of one session: the id counter and, for
/// each request still awaiting its response, the issued id with the slot
/// that will deliver the response.
pub struct OutgoingRequests<T> {
    pub next_id: u64,
    pub pending: Vec<(u64, T)>,
}

/// Every pending id was issued below the counter, and pending ids are
/// strictly increasing in issue order — so they are pairwise distinct.
pub open spec fn tracker_wf<T>(t: OutgoingRequests<T>) -> bool {
    &&& forall|k: int| 0 <= k < t.pending@.len() ==> (#[trigger] t.pending@[k]).0 < t.next_id
    &&& forall|k1: int, k2: int|
        0 <= k1 < k2 < t.pending@.len() ==> (#[trigger] t.pending@[k1]).0 < (
        #[trigger] t.pending@[k2]).0
}

impl<T> OutgoingRequests<T> {
    /// A tracker with nothing pending.
    pub fn new() -> (r: Self)
        ensures
            tracker_wf(r),
            r.pending@.len() == 0,
            r.next_id == 0,
    {
        OutgoingRequests { next_id: 0, pending: Vec::new() }
    }

    /// Issue a fresh id for one outgoing request and record its delivery
    /// slot. The returned header id is the decimal numeral of a counter
    /// value never issued before in this session.
    pub fn register(&mut self, slot: T) -> (r: String)
        requires
            tracker_wf(*old(self)),
            old(self).next_id < u64::MAX,
        ensures
            tracker_wf(*final(self)),
            final(self).pending@ == old(self).pending@.push((old(self).next_id, slot)),
            final(self).next_id == old(self).next_id + 1,
            r@ == dec_digits(old(self).next_id as nat),
            forall|k: int|
                0 <= k < old(self).pending@.len() ==> (#[trigger] old(self).pending@[k]).0 != old(
                    self,
                ).next_id,
    {
        let id = self.next_id;
        let r = u64_to_dec_string(id);
        self.pending.push((id, slot));
        self.next_id = id + 1;
        r
    }

    /// Route a response to its slot: remove and return the slot whose
    /// issued id reads exactly as the response's header id. A response
    /// with an untracked id resolves nothing and changes nothing.
    pub fn resolve(&mut self, id: &str) -> (r: Option<T>)
        requires
            tracker_wf(*old(self)),
        ensures
            tracker_wf(*final(self)),
            final(self).next_id == old(self).next_id,
            match r {
                Some(slot) => exists|k: int|
                    {
                        &&& 0 <= k < old(self).pending@.len()
                        &&& dec_digits((#[trigger] old(self).pending@[k]).0 as nat) == id@
                        &&& slot == old(self).pending@[k].1
                        &&& final(self).pending@ == old(self).pending@.remove(k)
                    },
                None => {
                    &&& *final(self) == *old(self)
                    &&& forall|k: int|
                        0 <= k < old(self).pending@.len() ==> dec_digits(
                            (#[trigger] old(self).pending@[k]).0 as nat,
                        ) != id@
                },
            },
    {
        let mut k: usize = 0;
        while k < self.pending.len()
            invariant
                tracker_wf(*self),
                *self == *old(self),
                k <= self.pending@.len(),
                forall|j: int|
                    0 <= j < k ==> dec_digits((#[trigger] self.pending@[j]).0 as nat) != id@,
            decreases self.pending@.len() - k,
        {
            let rendered = u64_to_dec_string(self.pending[k].0);
            if str_eq(id, rendered.as_str()) {
                let ghost kk = k as int;
                let ghost pre = self.pending@;
                let entry = self.pending.remove(k);
                proof {
                    pre.remove_ensures(kk);
                    assert forall|k1: int, k2: int|
                        0 <= k1 < k2 < self.pending@.len() implies (
                    #[trigger] self.pending@[k1]).0 < (#[trigger] self.pending@[k2]).0 by {
                        if k2 < kk {
                        } else if k1 < kk {
                            assert(self.pending@[k2] == pre[k2 + 1]);
                        } else {
                            assert(self.pending@[k1] == pre[k1 + 1]);
                            assert(self.pending@[k2] == pre[k2 + 1]);
                        }
                    }
                }
                return Some(entry.1);
            }
            k += 1;
        }
        None
    }

    /// Drain every pending slot on disconnect; nothing stays pending. The
    /// slots come out in reverse issue order.
    pub fn disconnect(&mut self) -> (r: Vec<T>)
        requires
            tracker_wf(*old(self)),
        ensures
            tracker_wf(*final(self)),
            final(self).pending@.len() == 0,
            final(self).next_id == old(self).next_id,
            r@.len() == old(self).pending@.len(),
            forall|i: int|
                0 <= i < r@.len() ==> #[trigger] r@[i] == old(self).pending@[r@.len() - 1 - i].1,
    {
        let mut out: Vec<T> = Vec::new();
        let ghost pre = self.pending@;
        while self.pending.len() > 0
            invariant
                self.next_id == old(self).next_id,
                out@.len() + self.pending@.len() == pre.len(),
                self.pending@ == pre.take(self.pending@.len() as int),
                forall|i: int|
                    0 <= i < out@.len() ==> #[trigger] out@[i] == pre[pre.len() - 1 - i].1,
            decreases self.pending@.len(),
        {
            let ghost before = self.pending@;
            let entry = self.pending.pop().unwrap();
            proof {
                assert(before.take(before.len() as int) =~= before);
                assert(self.pending@ =~= before.take(self.pending@.len() as int));
                assert(self.pending@ =~= pre.take(self.pending@.len() as int));
            }
            out.push(entry.1);
        }
        proof {
            assert(self.pending@ =~= Seq::<(u64, T)>::empty());
        }
        out
    }
}

/// Ids issued by the tracker are pairwise distinct, as strings on the
/// wire: any two different pending entries render different header ids.
pub proof fn lemma_pending_ids_distinct<T>(t: OutgoingRequests<T>, k1: int, k2: int)
    requires
        tracker_wf(t),
        0 <= k1 < t.pending@.len(),
        0 <= k2 < t.pending@.len(),
        k1 != k2,
    ensures
        dec_digits(t.pending@[k1].0 as nat) != dec_digits(t.pending@[k2].0 as nat),
{
    if k1 < k2 {
        lemma_dec_digits_injective(t.pending@[k1].0 as nat, t.pending@[k2].0 as nat);
    } else {
        lemma_dec_digits_injective(t.pending@[k1].0 as nat, t.pending@[k2].0 as nat);
    }
}

} // verus!
