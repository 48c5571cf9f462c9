//! The record of the ids in use, by which a command is recognised when
//! it comes a second time.

use vstd::arithmetic::div_mod::lemma_div_denominator;
use vstd::prelude::*;
use vstd::string::*;
use crate::common::text::{digit_char, signed_digits, signed_text};
use crate::engine::executor::signer::hex_digit;

verus! {

/// The table of the ids in use, each with the time at which it was
/// claimed.
pub type DedupTable = dashmap::DashMap<String, i64>;

/// What the table holds: the time of the claim, under the characters of
/// the id.
pub uninterp spec fn dedup_entries(table: DedupTable) -> Map<Seq<char>, i64>;

/// A table without entries.
pub open spec fn no_ids() -> Map<Seq<char>, i64> {
    Map::empty()
}

/// Wraps `DashMap::new`: a table without entries.
#[verifier::external_body]
fn dedup_new() -> (r: DedupTable)
    ensures
        dedup_entries(r) == no_ids(),
{
    dashmap::DashMap::new()
}

/// Wraps `DashMap::insert`: the table has the time under the id, and
/// every other entry as before.
#[verifier::external_body]
fn dedup_insert(table: &mut DedupTable, id: String, at: i64)
    ensures
        dedup_entries(*final(table)) == dedup_entries(*old(table)).insert(id@, at),
{
    table.insert(id, at);
}

/// Wraps `DashMap::contains_key`: whether the table has an entry under
/// the id.
#[verifier::external_body]
fn dedup_contains(table: &DedupTable, id: &str) -> (r: bool)
    ensures
        r == dedup_entries(*table).dom().contains(id@),
{
    table.contains_key(id)
}

/// Wraps `DashMap::remove`: the table has no entry under the id, and
/// every other entry as before.
#[verifier::external_body]
fn dedup_remove(table: &mut DedupTable, id: &str)
    ensures
        dedup_entries(*final(table)) == dedup_entries(*old(table)).remove(id@),
{
    table.remove(id);
}

/// Wraps `DashMap::iter`: copies of all entries, in the order in which
/// the table happens to hand them out.
#[verifier::external_body]
fn dedup_list(table: &DedupTable) -> (r: Vec<(String, i64)>)
    ensures
        forall|i: int|
            0 <= i < r@.len() ==> dedup_entries(*table).dom().contains((#[trigger] r@[i]).0@)
                && dedup_entries(*table)[r@[i].0@] == r@[i].1,
        forall|id: Seq<char>|
            dedup_entries(*table).dom().contains(id) ==> exists|i: int|
                0 <= i < r@.len() && (#[trigger] r@[i]).0@ == id,
{
    table.iter().map(|entry| (entry.key().clone(), *entry.value())).collect()
}

/// `16^n`.
pub open spec fn pow16(n: nat) -> int
    decreases n,
{
    if n == 0 {
        1
    } else {
        16 * pow16((n - 1) as nat)
    }
}

/// The character of a hexadecimal digit, in lower case.
pub open spec fn hex_char(d: int) -> char {
    if d < 10 {
        digit_char(d as nat)
    } else if d == 10 {
        'a'
    } else if d == 11 {
        'b'
    } else if d == 12 {
        'c'
    } else if d == 13 {
        'd'
    } else if d == 14 {
        'e'
    } else {
        'f'
    }
}

/// The text of a UUID: its 32 hexadecimal digits, the most significant
/// first, in lower case, in groups of 8, 4, 4, 4 and 12 with hyphens
/// between them.
pub open spec fn uuid_text(id: u128) -> Seq<char> {
    Seq::new(
        36,
        |i: int|
            if i == 8 || i == 13 || i == 18 || i == 23 {
                '-'
            } else {
                let digit = if i < 8 {
                    i
                } else if i < 13 {
                    i - 1
                } else if i < 18 {
                    i - 2
                } else if i < 23 {
                    i - 3
                } else {
                    i - 4
                };
                hex_char((id as int / pow16((31 - digit) as nat)) % 16)
            },
    )
}

/// Every power of 16 is positive.
pub proof fn lemma_pow16_positive(n: nat)
    ensures
        pow16(n) > 0,
    decreases n,
{
    if n > 0 {
        lemma_pow16_positive((n - 1) as nat);
    }
}

/// The 32 hexadecimal digits of a number, the least significant first.
fn hex_digits(id: u128) -> (r: Vec<u8>)
    ensures
        r@.len() == 32,
        forall|k: int| 0 <= k < 32 ==> #[trigger] r@[k] == (id as int / pow16(k as nat)) % 16,
{
    let mut digits: Vec<u8> = Vec::new();
    let mut q: u128 = id;
    let mut k: usize = 0;
    while k < 32
        invariant
            k <= 32,
            digits@.len() == k,
            q == id as int / pow16(k as nat),
            forall|j: int| 0 <= j < k ==> #[trigger] digits@[j] == (id as int / pow16(j as nat)) % 16,
        decreases 32 - k,
    {
        digits.push((q % 16) as u8);
        proof {
            lemma_pow16_positive(k as nat);
            lemma_div_denominator(id as int, pow16(k as nat), 16);
            assert(pow16((k + 1) as nat) == pow16(k as nat) * 16) by (nonlinear_arith)
                requires
                    pow16((k + 1) as nat) == 16 * pow16(k as nat),
            ;
        }
        q = q / 16;
        k += 1;
    }
    digits
}

/// The text of a UUID: its 32 hexadecimal digits in lower case, in groups
/// of 8, 4, 4, 4 and 12 with hyphens between them.
pub fn uuid_to_text(id: u128) -> (r: String)
    ensures
        r@ == uuid_text(id),
{
    let digits = hex_digits(id);
    let mut out = String::new();
    let mut i: usize = 0;
    while i < 36
        invariant
            i <= 36,
            digits@.len() == 32,
            forall|k: int| 0 <= k < 32 ==> #[trigger] digits@[k] == (id as int / pow16(k as nat)) % 16,
            out@.len() == i,
            forall|k: int| 0 <= k < i ==> out@[k] == #[trigger] uuid_text(id)[k],
        decreases 36 - i,
    {
        let ghost before = out@;
        if i == 8 || i == 13 || i == 18 || i == 23 {
            proof {
                reveal_strlit("-");
            }
            out.append("-");
            proof {
                assert(out@ =~= before.push('-'));
            }
        } else {
            let digit: usize = if i < 8 {
                i
            } else if i < 13 {
                i - 1
            } else if i < 18 {
                i - 2
            } else if i < 23 {
                i - 3
            } else {
                i - 4
            };
            let d = digits[31 - digit];
            out.append(hex_digit(d));
            proof {
                assert(out@ =~= before.push(hex_char(d as int)));
            }
        }
        proof {
            assert forall|k: int| 0 <= k < i + 1 implies out@[k] == #[trigger] uuid_text(id)[k] by {
                if k < i {
                    assert(out@[k] == before[k]);
                }
            }
        }
        i += 1;
    }
    proof {
        assert(out@ =~= uuid_text(id));
    }
    out
}

/// The client order id of a command at a time: the prefix, the text of
/// the command id and the time in milliseconds, joined by underscores.
pub open spec fn minted(prefix: Seq<char>, command_id: u128, now: i64) -> Seq<char> {
    prefix + "_"@ + uuid_text(command_id) + "_"@ + signed_digits(now as int)
}

/// What cleaning up leaves: the ids that were claimed no longer than
/// `max_age_ms` before `now`.
pub open spec fn kept(used: Map<Seq<char>, i64>, max_age_ms: i64, now: i64) -> Map<Seq<char>, i64> {
    used.restrict(Set::new(|id: Seq<char>| used.dom().contains(id) && now - used[id] <= max_age_ms))
}

/// The ids in use.
pub struct IdempotentManager {
    prefix: String,
    used_ids: DedupTable,
}

impl IdempotentManager {
    /// The ids in use, each with the time at which it was claimed.
    pub closed spec fn view(self) -> Map<Seq<char>, i64> {
        dedup_entries(self.used_ids)
    }

    /// The prefix of the ids that the manager mints.
    pub closed spec fn prefix_spec(self) -> Seq<char> {
        self.prefix@
    }

    /// A manager without ids in use.
    pub fn new(prefix: String) -> (r: IdempotentManager)
        ensures
            r@ == no_ids(),
            r.prefix_spec() == prefix@,
    {
        IdempotentManager { prefix, used_ids: dedup_new() }
    }

    /// The client order id of a command at a time.
    pub fn mint_client_order_id(&self, command_id: u128, now: i64) -> (r: String)
        ensures
            r@ == minted(self.prefix_spec(), command_id, now),
    {
        let mut id = self.prefix.clone();
        id.append("_");
        id.append(uuid_to_text(command_id).as_str());
        id.append("_");
        id.append(signed_text(now).as_str());
        id
    }

    /// Mints the client order id of a command and records it as in use.
    pub fn generate_client_order_id(&mut self, command_id: u128, now: i64) -> (r: String)
        ensures
            r@ == minted(old(self).prefix_spec(), command_id, now),
            final(self)@ == old(self)@.insert(r@, now),
            final(self).prefix_spec() == old(self).prefix_spec(),
    {
        let id = self.mint_client_order_id(command_id, now);
        dedup_insert(&mut self.used_ids, id.clone(), now);
        id
    }

    /// Whether the id is in use.
    pub fn is_duplicate(&self, client_order_id: &str) -> (r: bool)
        ensures
            r == self@.dom().contains(client_order_id@),
    {
        dedup_contains(&self.used_ids, client_order_id)
    }

    /// Claims an id at `now`, unless it is in use: says whether the claim
    /// took. An id in use stays as it is.
    pub fn claim(&mut self, id: &str, now: i64) -> (r: bool)
        ensures
            r == !old(self)@.dom().contains(id@),
            final(self)@ == claimed(old(self)@, id@, now),
            final(self).prefix_spec() == old(self).prefix_spec(),
    {
        if dedup_contains(&self.used_ids, id) {
            return false;
        }
        dedup_insert(&mut self.used_ids, String::from_str(id), now);
        true
    }

    /// Forgets the ids that were claimed more than `max_age_ms` before
    /// `now`.
    pub fn cleanup_old_ids(&mut self, max_age_ms: i64, now: i64)
        ensures
            final(self)@ == kept(old(self)@, max_age_ms, now),
            final(self).prefix_spec() == old(self).prefix_spec(),
    {
        let entries = dedup_list(&self.used_ids);
        let mut i: usize = 0;
        while i < entries.len()
            invariant
                i <= entries@.len(),
                self.prefix_spec() == old(self).prefix_spec(),
                forall|p: int|
                    0 <= p < entries@.len() ==> old(self)@.dom().contains((#[trigger] entries@[p]).0@)
                        && old(self)@[entries@[p].0@] == entries@[p].1,
                forall|id: Seq<char>|
                    old(self)@.dom().contains(id) ==> exists|p: int|
                        0 <= p < entries@.len() && (#[trigger] entries@[p]).0@ == id,
                forall|id: Seq<char>|
                    #[trigger] self@.dom().contains(id) <==> old(self)@.dom().contains(id) && !(
                    exists|p: int|
                        0 <= p < i && (#[trigger] entries@[p]).0@ == id && now - entries@[p].1
                            > max_age_ms),
                forall|id: Seq<char>| self@.dom().contains(id) ==> #[trigger] self@[id] == old(self)@[id],
            decreases entries@.len() - i,
        {
            let age: i128 = now as i128 - entries[i].1 as i128;
            let ghost before = self@;
            let ghost key = entries@[i as int].0@;
            let stale = age > max_age_ms as i128;
            if stale {
                dedup_remove(&mut self.used_ids, entries[i].0.as_str());
            }
            proof {
                assert forall|id: Seq<char>| self@.dom().contains(id) implies #[trigger] self@[id] == old(self)@[id] by {
                    assert(before.dom().contains(id));
                }
                assert forall|id: Seq<char>|
                    #[trigger] self@.dom().contains(id) <==> old(self)@.dom().contains(id) && !(
                    exists|p: int|
                        0 <= p < i + 1 && (#[trigger] entries@[p]).0@ == id && now - entries@[p].1
                            > max_age_ms) by {
                    let earlier = exists|p: int|
                        0 <= p < i && (#[trigger] entries@[p]).0@ == id && now - entries@[p].1
                            > max_age_ms;
                    let upto = exists|p: int|
                        0 <= p < i + 1 && (#[trigger] entries@[p]).0@ == id && now - entries@[p].1
                            > max_age_ms;
                    assert(before.dom().contains(id) <==> old(self)@.dom().contains(id) && !earlier);
                    if earlier {
                        let p = choose|p: int|
                            0 <= p < i && (#[trigger] entries@[p]).0@ == id && now - entries@[p].1
                                > max_age_ms;
                        assert(0 <= p < i + 1 && entries@[p].0@ == id);
                        assert(upto);
                    }
                    if id == key && stale {
                        assert(entries@[i as int].0@ == id);
                        assert(upto);
                    }
                    if upto && !earlier {
                        let p = choose|p: int|
                            0 <= p < i + 1 && (#[trigger] entries@[p]).0@ == id && now - entries@[p].1
                                > max_age_ms;
                        assert(p == i);
                    }
                }
            }
            i += 1;
        }
        proof {
            let target = kept(old(self)@, max_age_ms, now);
            assert forall|id: Seq<char>| self@.dom().contains(id) <==> target.dom().contains(id) by {
                if old(self)@.dom().contains(id) {
                    let p = choose|p: int| 0 <= p < entries@.len() && (#[trigger] entries@[p]).0@ == id;
                    assert(entries@[p].1 == old(self)@[id]);
                    if self@.dom().contains(id) {
                        assert(!(now - entries@[p].1 > max_age_ms));
                    }
                    if !self@.dom().contains(id) {
                        let q = choose|q: int|
                            0 <= q < i && (#[trigger] entries@[q]).0@ == id && now - entries@[q].1
                                > max_age_ms;
                        assert(entries@[q].1 == old(self)@[id]);
                    }
                }
            }
            assert(self@ =~= target);
        }
    }
}

/// The record after an id was claimed at `now`: the id is in use from
/// then, unless it was in use before.
pub open spec fn claimed(used: Map<Seq<char>, i64>, id: Seq<char>, now: i64) -> Map<Seq<char>, i64> {
    if used.dom().contains(id) {
        used
    } else {
        used.insert(id, now)
    }
}

/// Claims never forget: whatever was in use before a claim is in use
/// after it, and so is the id that was claimed.
pub proof fn lemma_claim_keeps(used: Map<Seq<char>, i64>, id: Seq<char>, now: i64)
    ensures
        used.dom().subset_of(claimed(used, id, now).dom()),
        claimed(used, id, now).dom().contains(id),
{
}

/// An id is claimed at most once: after a claim of it took, every further
/// claim of it fails, whatever else is claimed in between, as long as
/// nothing is forgotten.
pub proof fn lemma_claimed_once(
    before: Map<Seq<char>, i64>,
    between: Map<Seq<char>, i64>,
    id: Seq<char>,
    first: i64,
    second: i64,
)
    requires
        claimed(before, id, first).dom().subset_of(between.dom()),
    ensures
        between.dom().contains(id),
        claimed(between, id, second) == between,
{
    lemma_claim_keeps(before, id, first);
}

} // verus!
