//! The stream record and the release-schedule engine.
//!
//! A stream releases `total_amount` of a token between `start_time` and
//! `end_time`, in ticks of `period` seconds, optionally after a cliff that
//! unlocks a lump `cliff_amount`.  With `release_rate == 0` the per-period
//! amount is derived from the total; with `release_rate > 0` a fixed amount
//! unlocks per period.  All schedule arithmetic is exact integer arithmetic
//! that rounds down; that rounding rule is part of the contract.

use vstd::arithmetic::div_mod::{
    lemma_div_is_ordered, lemma_div_multiples_vanish, lemma_fundamental_div_mod,
};
use vstd::arithmetic::mul::{lemma_mul_inequality, lemma_mul_is_commutative};
use vstd::prelude::*;

use crate::account::Address;

verus! {

/// Version tag written into every persisted record.
pub const PROGRAM_VERSION: u64 = 2;

/// Longest accepted stream name, in bytes.
pub const MAX_STRING_SIZE: usize = 200;

/// The immutable terms of a stream, fixed at creation.  The display name is
/// held as its byte encoding; the host converts text at the boundary.
#[derive(Clone, Debug)]
pub struct StreamInstruction {
    pub start_time: u64,
    pub end_time: u64,
    pub deposited_amount: u64,
    pub total_amount: u64,
    pub period: u64,
    pub cliff: u64,
    pub cliff_amount: u64,
    pub cancelable_by_sender: bool,
    pub cancelable_by_recipient: bool,
    pub withdrawal_public: bool,
    pub transferable_by_sender: bool,
    pub transferable_by_recipient: bool,
    pub release_rate: u64,
    pub stream_name: Vec<u8>,
}

/// The absolute time of the first unlock: the cliff when one is set,
/// otherwise the start of the stream.
pub open spec fn effective_cliff(ix: StreamInstruction) -> int {
    if ix.cliff > 0 {
        ix.cliff as int
    } else {
        ix.start_time as int
    }
}

/// Terms a created record always satisfies: a tick is at least a second, the
/// stream has positive duration, a nonzero cliff lies inside the stream, the
/// cliff lump is covered by the total, and the name fits the limit.
pub open spec fn wf_terms(ix: StreamInstruction) -> bool {
    &&& ix.period >= 1
    &&& ix.start_time < ix.end_time
    &&& (ix.cliff == 0 || (ix.start_time <= ix.cliff && ix.cliff <= ix.end_time))
    &&& ix.cliff_amount <= ix.total_amount
    &&& ix.stream_name@.len() <= MAX_STRING_SIZE
}

impl Default for StreamInstruction {
    /// A placeholder schedule: everything zero except a one-second period,
    /// sender-cancelable, recipient-transferable, named "Stream".
    fn default() -> (d: Self)
        ensures
            d.start_time == 0,
            d.end_time == 0,
            d.deposited_amount == 0,
            d.total_amount == 0,
            d.period == 1,
            d.cliff == 0,
            d.cliff_amount == 0,
            d.cancelable_by_sender == true,
            d.cancelable_by_recipient == false,
            d.withdrawal_public == false,
            d.transferable_by_sender == false,
            d.transferable_by_recipient == true,
            d.release_rate == 0,
            d.stream_name@ =~= seq![83u8, 116u8, 114u8, 101u8, 97u8, 109u8],
    {
        let mut name: Vec<u8> = Vec::new();
        name.push(83);
        name.push(116);
        name.push(114);
        name.push(101);
        name.push(97);
        name.push(109);
        StreamInstruction {
            start_time: 0,
            end_time: 0,
            deposited_amount: 0,
            total_amount: 0,
            period: 1,
            cliff: 0,
            cliff_amount: 0,
            cancelable_by_sender: true,
            cancelable_by_recipient: false,
            withdrawal_public: false,
            transferable_by_sender: false,
            transferable_by_recipient: true,
            release_rate: 0,
            stream_name: name,
        }
    }
}

/// The persisted record of one stream: a version tag, the running
/// withdrawal/cancellation bookkeeping, the identities of every account bound
/// to the stream, and the embedded terms.
#[derive(Clone, Debug)]
pub struct TokenStreamData {
    pub magic: u64,
    pub created_at: u64,
    pub withdrawn_amount: u64,
    pub canceled_at: u64,
    pub closable_at: u64,
    pub last_withdrawn_at: u64,
    pub sender: Address,
    pub sender_tokens: Address,
    pub recipient: Address,
    pub recipient_tokens: Address,
    pub mint: Address,
    pub escrow_tokens: Address,
    pub ix: StreamInstruction,
}

/// Amount the proportional schedule alone has unlocked at `now` (the cliff
/// lump excluded), assuming `now` is past the effective cliff and, when
/// `release_rate == 0`, before the end: whole periods passed times the exact
/// per-period amount, rounded down.
pub open spec fn streamed_int(ix: StreamInstruction, now: u64) -> int {
    let ec = effective_cliff(ix);
    let pp = (now - ec) / (ix.period as int);
    if ix.release_rate > 0 {
        pp * (ix.release_rate as int)
    } else {
        (pp * (ix.total_amount - ix.cliff_amount) * (ix.period as int)) / (ix.end_time - ec)
    }
}

/// Amount withdrawable at `now`: zero before the start and before the cliff;
/// the whole remaining deposit once a stream without a fixed rate has ended;
/// otherwise the schedule plus the cliff lump, less what was already
/// withdrawn.  May be negative only on records that violate the stream
/// invariants.
pub open spec fn available_int(d: TokenStreamData, now: u64) -> int {
    if now < d.ix.start_time || now < d.ix.cliff {
        0
    } else if now >= d.ix.end_time && d.ix.release_rate == 0 {
        d.ix.deposited_amount - d.withdrawn_amount
    } else {
        streamed_int(d.ix, now) + d.ix.cliff_amount - d.withdrawn_amount
    }
}

/// The available amount is a sound `u64`: non-negative, and still in range
/// before the withdrawn amount is taken back off.  Holds automatically for
/// records in the stream invariant; a violating record is rejected by the
/// callers instead of being clamped silently.
pub open spec fn available_fits(d: TokenStreamData, now: u64) -> bool {
    &&& 0 <= available_int(d, now)
    &&& available_int(d, now) + d.withdrawn_amount <= u64::MAX
}

/// Earliest time at which the whole remaining deposit is unlockable: the
/// effective cliff when the deposit does not even cover the cliff lump,
/// otherwise the cliff plus the seconds the deposit needs at the stream's
/// amount-per-second, clamped to the end only when no fixed rate is set.
pub open spec fn closable_int(ix: StreamInstruction) -> int {
    let ec = effective_cliff(ix);
    let ca = ix.cliff_amount as int;
    if (ix.deposited_amount as int) < ca {
        ec
    } else {
        let aps = if ix.release_rate > 0 {
            (ix.release_rate as int) / (ix.period as int)
        } else {
            (ix.total_amount - ca) / (ix.end_time - ec)
        };
        let seconds_left = (ix.deposited_amount - ca) / aps + 1;
        if ec + seconds_left > ix.end_time && ix.release_rate == 0 {
            ix.end_time as int
        } else {
            ec + seconds_left
        }
    }
}

/// The closable computation divides by the amount-per-second and adds the
/// seconds back onto the cliff; these conditions keep every step defined and
/// in `u64` range.
pub open spec fn closable_defined(ix: StreamInstruction) -> bool {
    let ec = effective_cliff(ix);
    let ca = ix.cliff_amount as int;
    ix.deposited_amount >= ca ==> {
        &&& (ix.release_rate == 0 ==> ec < ix.end_time && ix.total_amount - ca >= ix.end_time
            - ec)
        &&& (ix.release_rate > 0 ==> ix.release_rate >= ix.period)
        &&& (ix.release_rate > 0 ==> closable_int(ix) <= u64::MAX)
    }
}

impl TokenStreamData {
    /// The stream invariant on a persisted record.
    pub open spec fn wf(self) -> bool {
        &&& wf_terms(self.ix)
        &&& self.withdrawn_amount <= self.ix.deposited_amount
    }

    /// A fresh record: version-tagged, nothing withdrawn, not canceled,
    /// closable at the end of the schedule (creation recomputes this for
    /// partially funded or fixed-rate streams).
    #[allow(clippy::too_many_arguments)]
    pub fn new(
        created_at: u64,
        sender: Address,
        sender_tokens: Address,
        recipient: Address,
        recipient_tokens: Address,
        mint: Address,
        escrow_tokens: Address,
        start_time: u64,
        end_time: u64,
        deposited_amount: u64,
        total_amount: u64,
        period: u64,
        cliff: u64,
        cliff_amount: u64,
        cancelable_by_sender: bool,
        cancelable_by_recipient: bool,
        withdrawal_public: bool,
        transferable_by_sender: bool,
        transferable_by_recipient: bool,
        release_rate: u64,
        stream_name: Vec<u8>,
    ) -> (d: Self)
        ensures
            d.magic == PROGRAM_VERSION,
            d.created_at == created_at,
            d.withdrawn_amount == 0,
            d.canceled_at == 0,
            d.closable_at == end_time,
            d.last_withdrawn_at == 0,
            d.sender == sender,
            d.sender_tokens == sender_tokens,
            d.recipient == recipient,
            d.recipient_tokens == recipient_tokens,
            d.mint == mint,
            d.escrow_tokens == escrow_tokens,
            d.ix.start_time == start_time,
            d.ix.end_time == end_time,
            d.ix.deposited_amount == deposited_amount,
            d.ix.total_amount == total_amount,
            d.ix.period == period,
            d.ix.cliff == cliff,
            d.ix.cliff_amount == cliff_amount,
            d.ix.cancelable_by_sender == cancelable_by_sender,
            d.ix.cancelable_by_recipient == cancelable_by_recipient,
            d.ix.withdrawal_public == withdrawal_public,
            d.ix.transferable_by_sender == transferable_by_sender,
            d.ix.transferable_by_recipient == transferable_by_recipient,
            d.ix.release_rate == release_rate,
            d.ix.stream_name == stream_name,
    {
        let ix = StreamInstruction {
            start_time,
            end_time,
            deposited_amount,
            total_amount,
            period,
            cliff,
            cliff_amount,
            cancelable_by_sender,
            cancelable_by_recipient,
            withdrawal_public,
            transferable_by_sender,
            transferable_by_recipient,
            release_rate,
            stream_name,
        };
        TokenStreamData {
            magic: PROGRAM_VERSION,
            created_at,
            withdrawn_amount: 0,
            canceled_at: 0,
            closable_at: end_time,
            last_withdrawn_at: 0,
            sender,
            sender_tokens,
            recipient,
            recipient_tokens,
            mint,
            escrow_tokens,
            ix,
        }
    }

    /// Amount withdrawable at `now`, exactly `available_int`.  The record
    /// must respect the stream invariants and the amount must be a sound
    /// `u64`; `checked_available` tests both instead of demanding them.
    pub fn available(&self, now: u64) -> (r: u64)
        requires
            self.wf(),
            available_fits(*self, now),
        ensures
            r == available_int(*self, now),
    {
        match self.checked_available(now) {
            Some(v) => v,
            None => {
                proof {
                    assert(false);
                }
                0
            },
        }
    }

    /// Amount withdrawable at `now`, or `None` for a record that violates
    /// the stream invariants or whose amount would fall outside `u64`: such
    /// a record is rejected, never clamped silently.
    pub fn checked_available(&self, now: u64) -> (r: Option<u64>)
        ensures
            r is Some <==> self.wf() && available_fits(*self, now),
            r is Some ==> r->0 == available_int(*self, now),
    {
        let wf_ok = self.ix.period >= 1 && self.ix.start_time < self.ix.end_time && (self.ix.cliff
            == 0 || (self.ix.start_time <= self.ix.cliff && self.ix.cliff <= self.ix.end_time))
            && self.ix.cliff_amount <= self.ix.total_amount && self.ix.stream_name.len()
            <= MAX_STRING_SIZE && self.withdrawn_amount <= self.ix.deposited_amount;
        if !wf_ok {
            return None;
        }
        if self.ix.start_time > now || self.ix.cliff > now {
            return Some(0);
        }
        if now >= self.ix.end_time && self.ix.release_rate == 0 {
            return Some(self.ix.deposited_amount - self.withdrawn_amount);
        }

        let cliff: u64 = if self.ix.cliff > 0 {
            self.ix.cliff
        } else {
            self.ix.start_time
        };
        let cliff_amount: u64 = self.ix.cliff_amount;

        let periods_passed: u64 = (now - cliff) / self.ix.period;
        proof {
            lemma_fundamental_div_mod((now - cliff) as int, self.ix.period as int);
            assert(periods_passed * self.ix.period <= now - cliff) by {
                assert((now - cliff) as int == self.ix.period * ((now - cliff) as int
                    / (self.ix.period as int)) + (now - cliff) as int % (self.ix.period as int));
                lemma_mul_is_commutative(periods_passed as int, self.ix.period as int);
            };
        }
        let earned: u128;
        if self.ix.release_rate > 0 {
            proof {
                assert((periods_passed as int) * (self.ix.release_rate as int) <= (u64::MAX as int)
                    * (u64::MAX as int)) by (nonlinear_arith)
                    requires
                        0 <= periods_passed <= u64::MAX,
                        0 <= self.ix.release_rate <= u64::MAX,
                ;
            }
            let e: u128 = (periods_passed as u128) * (self.ix.release_rate as u128);
            proof {
                assert(e == streamed_int(self.ix, now));
            }
            earned = e;
        } else {
            let rest: u64 = self.ix.total_amount - cliff_amount;
            proof {
                assert((periods_passed as int) * (rest as int) <= u128::MAX && (periods_passed
                    as int) * (rest as int) * (self.ix.period as int) <= u128::MAX)
                    by (nonlinear_arith)
                    requires
                        periods_passed * self.ix.period <= now - cliff,
                        now - cliff <= u64::MAX,
                        rest <= u64::MAX,
                        periods_passed <= u64::MAX,
                        0 <= rest,
                        0 <= periods_passed,
                        0 <= self.ix.period,
                ;
            }
            let num: u128 = (periods_passed as u128) * (rest as u128) * (self.ix.period as u128);
            let den: u128 = (self.ix.end_time - cliff) as u128;
            proof {
                let ppi = periods_passed as int;
                let pi = self.ix.period as int;
                let ri = rest as int;
                let di = (self.ix.end_time - cliff) as int;
                // now < end_time here, so the numerator stays below den * rest
                assert(ppi * ri * pi <= di * ri) by (nonlinear_arith)
                    requires
                        ppi * pi <= now - cliff,
                        now - cliff <= di - 1,
                        0 <= ri,
                        0 <= ppi,
                        0 <= pi,
                ;
                assert(num == ppi * ri * pi);
                assert(num / den <= rest) by {
                    lemma_div_is_ordered(ppi * ri * pi, di * ri, di);
                    lemma_mul_is_commutative(di, ri);
                    lemma_div_multiples_vanish(ri, di);
                };
            }
            let q: u128 = num / den;
            proof {
                assert(q == streamed_int(self.ix, now));
            }
            earned = q;
        }
        let unlocked: u128 = earned + cliff_amount as u128;
        if unlocked > u64::MAX as u128 {
            return None;
        }
        let unlocked64: u64 = unlocked as u64;
        if unlocked64 < self.withdrawn_amount {
            return None;
        }
        proof {
            assert(unlocked64 - self.withdrawn_amount == available_int(*self, now));
        }
        Some(unlocked64 - self.withdrawn_amount)
    }

    /// Earliest time at which the whole remaining deposit is unlockable,
    /// exactly `closable_int`.  Recomputed whenever the deposit changes.
    pub fn closable(&self) -> (r: u64)
        requires
            wf_terms(self.ix),
            closable_defined(self.ix),
        ensures
            r == closable_int(self.ix),
    {
        let cliff_time: u64 = if self.ix.cliff > 0 {
            self.ix.cliff
        } else {
            self.ix.start_time
        };
        let cliff_amount: u64 = self.ix.cliff_amount;
        if self.ix.deposited_amount < cliff_amount {
            return cliff_time;
        }

        let amount_per_second: u64 = if self.ix.release_rate > 0 {
            self.ix.release_rate / self.ix.period
        } else {
            let seconds_nr: u64 = self.ix.end_time - cliff_time;
            (self.ix.total_amount - cliff_amount) / seconds_nr
        };
        proof {
            if self.ix.release_rate > 0 {
                assert(self.ix.release_rate / self.ix.period >= 1) by {
                    lemma_div_is_ordered(
                        self.ix.period as int,
                        self.ix.release_rate as int,
                        self.ix.period as int,
                    );
                    assert(self.ix.period as int / (self.ix.period as int) == 1) by {
                        lemma_fundamental_div_mod(self.ix.period as int, self.ix.period as int);
                    };
                };
            } else {
                let sn = (self.ix.end_time - cliff_time) as int;
                assert((self.ix.total_amount - cliff_amount) as int / sn >= 1) by {
                    lemma_div_is_ordered(sn, (self.ix.total_amount - cliff_amount) as int, sn);
                    lemma_fundamental_div_mod(sn, sn);
                };
            }
        }
        let seconds_left: u128 = ((self.ix.deposited_amount - cliff_amount) as u128)
            / (amount_per_second as u128) + 1;
        let with_cliff: u128 = (cliff_time as u128) + seconds_left;
        if with_cliff > self.ix.end_time as u128 && self.ix.release_rate == 0 {
            self.ix.end_time
        } else {
            proof {
                if self.ix.release_rate == 0 {
                    assert(with_cliff <= self.ix.end_time);
                }
            }
            with_cliff as u64
        }
    }

    /// Whether the terms admit the closable computation: `closable` divides
    /// by the amount-per-second and adds the seconds back onto the cliff.
    /// A record read back from storage is tested with this before `closable`
    /// is asked of it; a record that fails is rejected.
    pub fn closable_ready(&self) -> (r: bool)
        ensures
            r == (wf_terms(self.ix) && closable_defined(self.ix)),
    {
        let wf_ok = self.ix.period >= 1 && self.ix.start_time < self.ix.end_time && (self.ix.cliff
            == 0 || (self.ix.start_time <= self.ix.cliff && self.ix.cliff <= self.ix.end_time))
            && self.ix.cliff_amount <= self.ix.total_amount && self.ix.stream_name.len()
            <= MAX_STRING_SIZE;
        if !wf_ok {
            return false;
        }
        if self.ix.deposited_amount < self.ix.cliff_amount {
            return true;
        }
        let cliff_time: u64 = if self.ix.cliff > 0 {
            self.ix.cliff
        } else {
            self.ix.start_time
        };
        if self.ix.release_rate == 0 {
            cliff_time < self.ix.end_time && self.ix.total_amount - self.ix.cliff_amount
                >= self.ix.end_time - cliff_time
        } else {
            if self.ix.release_rate < self.ix.period {
                return false;
            }
            let aps: u64 = self.ix.release_rate / self.ix.period;
            proof {
                assert(self.ix.release_rate / self.ix.period >= 1) by {
                    lemma_div_is_ordered(
                        self.ix.period as int,
                        self.ix.release_rate as int,
                        self.ix.period as int,
                    );
                    lemma_fundamental_div_mod(self.ix.period as int, self.ix.period as int);
                };
            }
            let seconds_left: u128 = ((self.ix.deposited_amount - self.ix.cliff_amount) as u128)
                / (aps as u128) + 1;
            let with_cliff: u128 = (cliff_time as u128) + seconds_left;
            with_cliff <= u64::MAX as u128
        }
    }
}

/// Once a stream without a fixed rate has ended, exactly the whole remaining
/// deposit is available.
pub proof fn lemma_available_after_end(d: TokenStreamData, now: u64)
    requires
        d.wf(),
        d.ix.release_rate == 0,
        now >= d.ix.end_time,
    ensures
        available_int(d, now) == d.ix.deposited_amount - d.withdrawn_amount,
{
}

/// At the moment a fresh stream starts, nothing is available yet.  This needs
/// the cliff lump to sit strictly after the start: a stream whose cliff lump
/// unlocks at the start itself releases that lump immediately.
pub proof fn lemma_available_at_start(d: TokenStreamData)
    requires
        d.wf(),
        d.withdrawn_amount == 0,
        d.ix.cliff_amount == 0 || d.ix.cliff > d.ix.start_time,
    ensures
        available_int(d, d.ix.start_time) == 0,
{
    let start = d.ix.start_time;
    if start < d.ix.cliff {
    } else {
        let ec = effective_cliff(d.ix);
        assert(ec == start);
        let p = d.ix.period as int;
        assert((start - ec) / p == 0) by {
            vstd::arithmetic::div_mod::lemma_div_of0(p);
        };
        if d.ix.release_rate > 0 {
            assert(streamed_int(d.ix, start) == 0) by {
                vstd::arithmetic::mul::lemma_mul_basics(d.ix.release_rate as int);
            };
        } else {
            assert(0int * (d.ix.total_amount - d.ix.cliff_amount) * p == 0) by (nonlinear_arith);
            assert(streamed_int(d.ix, start) == 0) by {
                vstd::arithmetic::div_mod::lemma_div_of0((d.ix.end_time - ec) as int);
            };
        }
    }
}

/// The amount a stream makes available never decreases as time passes, up to
/// the end of the schedule.  Stated for fully funded streams (a deposit
/// covering the total) whose record respects the stream invariants; a
/// partially funded stream can fall back to its smaller deposit at the end.
pub proof fn lemma_available_nondecreasing(d: TokenStreamData, now1: u64, now2: u64)
    requires
        d.wf(),
        now1 <= now2 <= d.ix.end_time,
        d.ix.total_amount <= d.ix.deposited_amount,
        available_int(d, now1) >= 0,
        available_int(d, now2) >= 0,
    ensures
        available_int(d, now1) <= available_int(d, now2),
{
    let ix = d.ix;
    let ec = effective_cliff(ix);
    let p = ix.period as int;
    if now1 < ix.start_time || now1 < ix.cliff {
        // nothing yet at now1, and now2 is non-negative by hypothesis
    } else if now1 >= ix.end_time && ix.release_rate == 0 {
        assert(now1 == ix.end_time && now2 == ix.end_time);
    } else {
        assert(ec <= now1);
        let pp1 = (now1 - ec) / p;
        let pp2 = (now2 - ec) / p;
        if now2 >= ix.end_time && ix.release_rate == 0 {
            // now2 is the end: everything left is available, which covers the
            // schedule because the deposit covers the total
            assert(now1 < ix.end_time);
            lemma_streamed_le_rest(ix, now1);
        } else {
            lemma_div_is_ordered((now1 - ec) as int, (now2 - ec) as int, p);
            assert(pp1 <= pp2);
            if ix.release_rate > 0 {
                lemma_mul_inequality(pp1, pp2, ix.release_rate as int);
            } else {
                assert(now1 < ix.end_time);
                let ri = ix.total_amount - ix.cliff_amount;
                let di = ix.end_time - ec;
                assert(pp1 * ri * p <= pp2 * ri * p) by (nonlinear_arith)
                    requires
                        pp1 <= pp2,
                        0 <= ri,
                        0 <= p,
                ;
                lemma_div_is_ordered(pp1 * ri * p, pp2 * ri * p, di);
            }
        }
    }
}

/// In a stream without a fixed rate, the proportional schedule before the end
/// never unlocks more than the total beyond the cliff lump.
pub proof fn lemma_streamed_le_rest(ix: StreamInstruction, now: u64)
    requires
        wf_terms(ix),
        ix.release_rate == 0,
        effective_cliff(ix) <= now < ix.end_time,
    ensures
        0 <= streamed_int(ix, now) <= ix.total_amount - ix.cliff_amount,
{
    let ec = effective_cliff(ix);
    let p = ix.period as int;
    let rest = ix.total_amount - ix.cliff_amount;
    let pp = (now - ec) / p;
    let den = ix.end_time - ec;
    lemma_fundamental_div_mod((now - ec) as int, p);
    assert(0 <= pp) by {
        vstd::arithmetic::div_mod::lemma_div_pos_is_pos((now - ec) as int, p);
    };
    assert(p * pp <= now - ec);
    lemma_mul_is_commutative(p, pp);
    assert(pp * rest * p == (pp * p) * rest) by (nonlinear_arith);
    lemma_mul_inequality(pp * p, (now - ec) as int, rest);
    lemma_mul_inequality((now - ec) as int, den - 1, rest);
    assert(pp * rest * p <= den * rest - rest) by (nonlinear_arith)
        requires
            pp * rest * p == (pp * p) * rest,
            (pp * p) * rest <= (den - 1) * rest,
            0 <= rest,
    ;
    assert(streamed_int(ix, now) == (pp * rest * p) / den);
    lemma_div_is_ordered(pp * rest * p, den * rest, den);
    lemma_mul_is_commutative(den, rest);
    lemma_div_multiples_vanish(rest, den);
    assert(0 <= (pp * rest * p) / den) by {
        vstd::arithmetic::div_mod::lemma_div_pos_is_pos(pp * rest * p, den);
        assert(0 <= pp * rest * p) by (nonlinear_arith)
            requires
                0 <= pp,
                0 <= rest,
                0 <= p,
        ;
    };
}

} // verus!
