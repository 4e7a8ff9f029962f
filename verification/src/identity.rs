//! The identity/ordering subsystem: construction-order tokens. A process-local
//! cell holds the last-minted instant, starting from the epoch; minting reads
//! the clock and, while the reading is not strictly greater than the cell,
//! bumps an equal reading by the smallest increment or re-reads an anomalously
//! earlier one — so tokens are in strict total order even under a coarse
//! clock. The host serializes access to the cell (it holds the one mutable
//! reference); identity is process-local, so no distributed coordination is
//! needed. Ordering and equality between handles are defined on the token
//! alone, descending (newer sorts first); the label field exists only for
//! diagnostics and never affects comparisons.

use vstd::prelude::*;

verus! {

/// The token a mint must produce from the last-minted value and a clock
/// reading: the reading itself when strictly newer, else the smallest step
/// up. At the instant space's absolute ceiling — a state no real clock
/// reaches — the mint stops advancing instead of wrapping.
pub open spec fn minted_of(last: u128, reading: u128) -> u128 {
    if reading > last {
        reading
    } else if last < u128::MAX - 1 {
        (last + 1) as u128
    } else {
        last
    }
}

/// Computes the next token: strictly greater than `last` everywhere below
/// the ceiling, and the clock reading itself whenever the clock already
/// moved past `last`.
pub fn advance(last: u128, reading: u128) -> (next: u128)
    requires
        last < u128::MAX,
        reading < u128::MAX,
    ensures
        next == minted_of(last, reading),
        next >= last,
        last < u128::MAX - 1 ==> next > last,
        reading > last ==> next == reading,
        next < u128::MAX,
{
    if reading > last {
        reading
    } else if last < u128::MAX - 1 {
        last + 1
    } else {
        last
    }
}

/// Tokens minted in sequence are in strict total order, whatever the clock
/// readings were: the second token always exceeds the first.
pub proof fn lemma_mint_strictly_increases(last: u128, r1: u128, r2: u128)
    requires
        last < u128::MAX - 2,
    ensures
        minted_of(last, r1) > last,
        minted_of(last, r1) < u128::MAX - 1 ==> minted_of(minted_of(last, r1), r2) > minted_of(
            last,
            r1,
        ),
{
}

/// Three instants minted in sequence are strictly increasing wherever the
/// instant space is not exhausted: under the descending identity order, the
/// first-constructed handle outranks the second, and the second the third.
pub proof fn lemma_construction_order(l0: u128, r1: u128, r2: u128, r3: u128)
    requires
        l0 < u128::MAX - 2,
        minted_of(l0, r1) < u128::MAX - 2,
        minted_of(minted_of(l0, r1), r2) < u128::MAX - 2,
    ensures
        ({
            let t1 = minted_of(l0, r1);
            let t2 = minted_of(t1, r2);
            let t3 = minted_of(t2, r3);
            t1 < t2 && t2 < t3
        }),
{
}

/// The process-local cell holding the last-minted instant.
pub struct DebutMint {
    /// The last instant this cell handed out; the epoch before any mint.
    pub last: u128,
}

/// Relies on std::time::SystemTime::now and duration_since(UNIX_EPOCH): the
/// nanoseconds elapsed since the epoch, or zero should the clock report a
/// time before it. Depends on the machine's clock: nothing is promised of
/// the value.
#[verifier::external_body]
fn now_nanos() -> u128 {
    match std::time::SystemTime::now().duration_since(std::time::SystemTime::UNIX_EPOCH) {
        Ok(d) => d.as_nanos(),
        Err(_) => 0,
    }
}

/// The clock reading, kept below the instant space's ceiling.
fn clamped_now() -> (r: u128)
    ensures
        r < u128::MAX,
{
    let raw = now_nanos();
    if raw >= u128::MAX {
        u128::MAX - 1
    } else {
        raw
    }
}

impl DebutMint {
    /// A fresh cell, initialized to the epoch.
    pub fn new() -> (r: DebutMint)
        ensures
            r.last == 0,
    {
        DebutMint { last: 0 }
    }

    /// Mints the next token and records it in the cell: `minted_of` the
    /// cell's previous value and some clock reading, so strictly greater
    /// than every token this cell produced before, everywhere below the
    /// instant space's ceiling. An anomalously earlier clock reading is
    /// re-read a bounded number of times; an equal or still-earlier one is
    /// answered by bumping the last value by the smallest representable
    /// increment.
    pub fn mint(&mut self) -> (t: u128)
        ensures
            t == final(self).last,
            t >= old(self).last,
            old(self).last < u128::MAX - 1 ==> t > old(self).last,
            old(self).last < u128::MAX ==> t < u128::MAX,
            exists|reading: u128|
                reading < u128::MAX && t == minted_of(old(self).last, reading),
    {
        let last = self.last;
        if last >= u128::MAX - 1 {
            // The ceiling: the mint stops advancing instead of wrapping.
            proof {
                assert(0 < u128::MAX && last == minted_of(last, 0));
            }
            return last;
        }
        let mut reading = clamped_now();
        let mut tries: u8 = 0;
        while reading < last && tries < 8
            invariant
                reading < u128::MAX,
            decreases 8 - tries,
        {
            reading = clamped_now();
            tries = tries + 1;
        }
        let next = advance(last, reading);
        self.last = next;
        next
    }
}

/// The construction-order marker a proxy handle carries: the minted instant,
/// shared among the handle's clones so that live handles can be counted, and
/// a caller-assigned diagnostic label that never takes part in comparisons.
pub struct IdentityToken {
    pub debut: std::sync::Arc<u128>,
    pub label: String,
}

/// Relies on Arc::clone: the clone points at the same allocation and carries
/// the same value; the strong count grows by one.
#[verifier::external_body]
fn clone_debut(a: &std::sync::Arc<u128>) -> (r: std::sync::Arc<u128>)
    ensures
        r == *a,
{
    std::sync::Arc::clone(a)
}

/// Relies on Arc::strong_count: the number of strong references to the
/// allocation at some moment. Other threads may change it at any time; the
/// one stable fact is that the argument itself keeps the count at one or
/// more for the whole call.
#[verifier::external_body]
fn debut_holders(a: &std::sync::Arc<u128>) -> (r: usize)
    ensures
        r >= 1,
{
    std::sync::Arc::strong_count(a)
}

impl IdentityToken {
    /// Mints a fresh token with an empty label: its instant is the one the
    /// cell just produced, strictly greater than the cell's previous value
    /// everywhere below the instant space's ceiling.
    pub fn mint(mint: &mut DebutMint) -> (r: IdentityToken)
        ensures
            r.label@ == Seq::<char>::empty(),
            *r.debut == final(mint).last,
            *r.debut >= old(mint).last,
            old(mint).last < u128::MAX - 1 ==> *r.debut > old(mint).last,
    {
        let stamp = mint.mint();
        proof {
            reveal_strlit("");
        }
        IdentityToken { debut: std::sync::Arc::new(stamp), label: "".to_owned() }
    }

    /// A clone of this token: same instant, same allocation (so it counts as
    /// one more live handle), same label.
    pub fn duplicate(&self) -> (r: IdentityToken)
        ensures
            r.debut == self.debut,
            r.label@ == self.label@,
    {
        IdentityToken { debut: clone_debut(&self.debut), label: self.label.clone() }
    }

    /// The minted instant.
    pub fn debut_value(&self) -> (r: u128)
        ensures
            r == *self.debut,
    {
        *self.debut
    }

    /// How many live handles share this instant, this one included — so at
    /// least one. Counted at some moment: concurrent clones and drops may
    /// change it at any time.
    pub fn live_count(&self) -> (r: usize)
        ensures
            r >= 1,
    {
        debut_holders(&self.debut)
    }

    /// Equality is defined on the instant alone: the label is excluded.
    pub fn same_identity(&self, other: &IdentityToken) -> (r: bool)
        ensures
            r == (*self.debut == *other.debut),
    {
        *self.debut == *other.debut
    }

    /// The descending order: a token outranks another exactly when its
    /// instant is strictly smaller, so newer instances sort first. The label
    /// is excluded.
    pub fn outranks(&self, other: &IdentityToken) -> (r: bool)
        ensures
            r == (*self.debut < *other.debut),
    {
        *self.debut < *other.debut
    }
}

/// Relabeling two tokens never changes how they compare: equality and order
/// are functions of the instants alone.
pub proof fn lemma_label_excluded(a: IdentityToken, b: IdentityToken, la: String, lb: String)
    ensures
        ({
            let a2 = IdentityToken { debut: a.debut, label: la };
            let b2 = IdentityToken { debut: b.debut, label: lb };
            &&& ((*a2.debut == *b2.debut) <==> (*a.debut == *b.debut))
            &&& ((*a2.debut < *b2.debut) <==> (*a.debut < *b.debut))
        }),
{
}

} // verus!
