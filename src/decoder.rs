use vstd::prelude::*;

use crate::outcome::{OutcomeView, RunOutcome};
use crate::table::{
    diagnostic_entries, diagnostic_table, lemma_table_layout, tests_code, BytePattern,
    DiagnosticEntry,
};

verus! {

/// The text of a pair that no entry of the table matches.
pub const UNKNOWN_FAILURE: &'static str = "unknown failure";

/// The index of the first entry of `t`, from index `i` on, that matches the
/// pair `(b1, b2)`.
pub open spec fn first_match_from(t: Seq<DiagnosticEntry>, b1: u8, b2: u8, i: int) -> Option<int>
    decreases t.len() - i,
{
    if 0 <= i < t.len() {
        if t[i].matches(b1, b2) {
            Some(i)
        } else {
            first_match_from(t, b1, b2, i + 1)
        }
    } else {
        None
    }
}

/// The index of the first entry of the diagnostic table that matches `(b1, b2)`.
pub open spec fn first_match(b1: u8, b2: u8) -> Option<int> {
    first_match_from(diagnostic_table(), b1, b2, 0)
}

/// The outcome that the status pair `(b1, b2)` stands for: a pass when either
/// byte still holds zero, else the text of the first matching entry, else the
/// unknown-failure diagnosis.
pub open spec fn decoded(b1: u8, b2: u8) -> OutcomeView {
    if b1 == 0 || b2 == 0 {
        OutcomeView::Passed
    } else {
        match first_match(b1, b2) {
            Some(i) => OutcomeView::Diagnosed(diagnostic_table()[i].text@),
            None => OutcomeView::Diagnosed(UNKNOWN_FAILURE@),
        }
    }
}

/// Decodes the two status bytes that the test program leaves in memory.
pub fn decode_status(b1: u8, b2: u8) -> (r: RunOutcome)
    ensures
        r@ == decoded(b1, b2),
{
    if b1 == 0 || b2 == 0 {
        return RunOutcome::Passed;
    }
    let table = diagnostic_entries();
    let mut k: usize = 0;
    while k < table.len()
        invariant
            b1 != 0 && b2 != 0,
            table@ == diagnostic_table(),
            0 <= k <= table.len(),
            first_match(b1, b2) == first_match_from(table@, b1, b2, k as int),
        decreases table.len() - k,
    {
        if table[k].test(b1, b2) {
            return RunOutcome::Diagnosed(table[k].text.to_owned());
        }
        k += 1;
    }
    RunOutcome::Diagnosed(UNKNOWN_FAILURE.to_owned())
}

/// What the search from index `k` finds: the first matching entry at or after
/// `k`, or, when it finds none, that no entry from `k` on matches.
pub proof fn lemma_first_match_from(t: Seq<DiagnosticEntry>, b1: u8, b2: u8, k: int)
    requires
        0 <= k,
    ensures
        match first_match_from(t, b1, b2, k) {
            Some(m) => k <= m < t.len() && t[m].matches(b1, b2) && forall|j: int|
                k <= j < m ==> !#[trigger] t[j].matches(b1, b2),
            None => forall|j: int| k <= j < t.len() ==> !#[trigger] t[j].matches(b1, b2),
        },
    decreases t.len() - k,
{
    if k < t.len() && !t[k].matches(b1, b2) {
        lemma_first_match_from(t, b1, b2, k + 1);
    }
}

/// A pair in which either status byte is still zero decodes as a pass,
/// whatever the other byte holds.
pub proof fn lemma_zero_byte_passes(b1: u8, b2: u8)
    requires
        b1 == 0 || b2 == 0,
    ensures
        decoded(b1, b2) == OutcomeView::Passed,
{
}

/// First match wins: when entry `i` matches a pair of non-zero bytes and no
/// entry before it does, the pair decodes to the text of entry `i`.
pub proof fn lemma_first_matching_entry_decides(b1: u8, b2: u8, i: int)
    requires
        b1 != 0,
        b2 != 0,
        0 <= i < diagnostic_table().len(),
        diagnostic_table()[i].matches(b1, b2),
        forall|j: int| 0 <= j < i ==> !#[trigger] diagnostic_table()[j].matches(b1, b2),
    ensures
        first_match(b1, b2) == Some(i),
        decoded(b1, b2) == OutcomeView::Diagnosed(diagnostic_table()[i].text@),
{
    lemma_first_match_from(diagnostic_table(), b1, b2, 0);
}

/// When two entries `i < j` both match a pair of non-zero bytes, the later one
/// never decides it: the pair decodes to the text of an entry at or before `i`.
pub proof fn lemma_earlier_entry_wins(b1: u8, b2: u8, i: int, j: int)
    requires
        b1 != 0,
        b2 != 0,
        0 <= i < j < diagnostic_table().len(),
        diagnostic_table()[i].matches(b1, b2),
        diagnostic_table()[j].matches(b1, b2),
    ensures
        first_match(b1, b2) matches Some(m) && m <= i && decoded(b1, b2)
            == OutcomeView::Diagnosed(diagnostic_table()[m].text@),
{
    lemma_first_match_from(diagnostic_table(), b1, b2, 0);
}

/// A pair of non-zero bytes that no entry matches decodes to the
/// unknown-failure diagnosis.
pub proof fn lemma_unmatched_pair_is_unknown(b1: u8, b2: u8)
    requires
        b1 != 0,
        b2 != 0,
        forall|j: int|
            0 <= j < diagnostic_table().len() ==> !#[trigger] diagnostic_table()[j].matches(b1, b2),
    ensures
        decoded(b1, b2) == OutcomeView::Diagnosed(UNKNOWN_FAILURE@),
{
    lemma_first_match_from(diagnostic_table(), b1, b2, 0);
}

/// An entry that tests the first byte for a literal `c`, and that only entries
/// testing the first byte for other literals precede, decides every pair
/// whose first byte is `c` and whose second byte is non-zero.
pub proof fn lemma_first_byte_entry_decides(i: int, b2: u8)
    requires
        0 <= i < diagnostic_table().len(),
        diagnostic_table()[i].first matches BytePattern::Is(c) && c != 0,
        diagnostic_table()[i].second == BytePattern::Any,
        b2 != 0,
        forall|j: int|
            0 <= j < i ==> (#[trigger] diagnostic_table()[j]).first is Is
                && diagnostic_table()[j].first != diagnostic_table()[i].first,
    ensures
        diagnostic_table()[i].first matches BytePattern::Is(c) && decoded(c, b2)
            == OutcomeView::Diagnosed(diagnostic_table()[i].text@),
{
    let c = diagnostic_table()[i].first->Is_0;
    assert forall|j: int| 0 <= j < i implies !#[trigger] diagnostic_table()[j].matches(c, b2) by {
        assert(diagnostic_table()[j].first is Is);
    }
    lemma_first_matching_entry_decides(c, b2, i);
}

/// An entry that tests the second byte for a literal `c`, and that only
/// entries testing the second byte for other literals precede, decides every
/// pair whose second byte is `c` and whose first byte is non-zero.
pub proof fn lemma_second_byte_entry_decides(i: int, b1: u8)
    requires
        0 <= i < diagnostic_table().len(),
        diagnostic_table()[i].second matches BytePattern::Is(c) && c != 0,
        diagnostic_table()[i].first == BytePattern::Any,
        b1 != 0,
        forall|j: int|
            0 <= j < i ==> (#[trigger] diagnostic_table()[j]).second is Is
                && diagnostic_table()[j].second != diagnostic_table()[i].second,
    ensures
        diagnostic_table()[i].second matches BytePattern::Is(c) && decoded(b1, c)
            == OutcomeView::Diagnosed(diagnostic_table()[i].text@),
{
    let c = diagnostic_table()[i].second->Is_0;
    assert forall|j: int| 0 <= j < i implies !#[trigger] diagnostic_table()[j].matches(b1, c) by {
        assert(diagnostic_table()[j].second is Is);
    }
    lemma_first_matching_entry_decides(b1, c, i);
}

/// The index of the entry that decides a pair of non-zero bytes, read off the
/// layout of the table: the first-byte entries for 0x01 to 0x4D and 0x58 to
/// 0xFE come before everything else; the second-byte entries for 0x01 to 0x7B
/// come before the NOP entries for 0x4E to 0x57; the second-byte entries for
/// 0x7C to 0xFD come last; and no entry matches 0xFF with 0xFE or 0xFF.
pub open spec fn deciding_entry(b1: u8, b2: u8) -> Option<int> {
    if 0x01 <= b1 <= 0x3D {
        Some(b1 - 0x01)
    } else if 0x71 <= b1 <= 0x75 {
        Some(61 + (b1 - 0x71))
    } else if 0x3E <= b1 <= 0x4D {
        Some(66 + (b1 - 0x3E))
    } else if 0x58 <= b1 <= 0x70 {
        Some(82 + (b1 - 0x58))
    } else if 0x76 <= b1 <= 0xFE {
        Some(107 + (b1 - 0x76))
    } else if 0x01 <= b2 <= 0x7B {
        Some(244 + (b2 - 0x01))
    } else if 0x4E <= b1 <= 0x57 {
        Some(367 + (b1 - 0x4E))
    } else if b2 <= 0xFD {
        Some(377 + (b2 - 0x7C))
    } else {
        None
    }
}

/// Every pair of non-zero bytes is decided by the entry that
/// `deciding_entry` names, or by none.
pub proof fn lemma_deciding_entry(b1: u8, b2: u8)
    requires
        b1 != 0,
        b2 != 0,
    ensures
        first_match(b1, b2) == deciding_entry(b1, b2),
{
    lemma_table_layout();
    let t = diagnostic_table();
    lemma_first_match_from(t, b1, b2, 0);
    match deciding_entry(b1, b2) {
        Some(i) => {
            assert(t[i].matches(b1, b2));
            assert(forall|j: int| 0 <= j < i ==> !#[trigger] t[j].matches(b1, b2));
            lemma_first_matching_entry_decides(b1, b2, i);
        },
        None => {
            assert(forall|j: int| 0 <= j < t.len() ==> !#[trigger] t[j].matches(b1, b2));
        },
    }
}

/// A first-byte code from 0x01 to 0x4D or from 0x58 to 0xFE decides the pair
/// through its own entry, whatever the non-zero second byte is.
pub proof fn lemma_first_byte_code_decides(b1: u8, b2: u8)
    requires
        0x01 <= b1 <= 0x4D || 0x58 <= b1 <= 0xFE,
        b2 != 0,
    ensures
        first_match(b1, b2) matches Some(i) && i < 244 && tests_code(
            diagnostic_table()[i],
            true,
            b1 as int,
        ) && decoded(b1, b2) == OutcomeView::Diagnosed(diagnostic_table()[i].text@),
        forall|c: u8| c != 0 ==> #[trigger] first_match(b1, c) == first_match(b1, b2),
{
    lemma_table_layout();
    lemma_deciding_entry(b1, b2);
    assert forall|c: u8| c != 0 implies #[trigger] first_match(b1, c) == first_match(b1, b2) by {
        lemma_deciding_entry(b1, c);
    }
}

/// Table order decides between a NOP code in the first byte and a code in the
/// second byte: second-byte codes up to 0x7B come first, and from 0x7C on the
/// NOP entry does.
pub proof fn lemma_nop_code_order(b1: u8, b2: u8)
    requires
        0x4E <= b1 <= 0x57,
        b2 != 0,
    ensures
        b2 <= 0x7B ==> (first_match(b1, b2) matches Some(i) && tests_code(
            diagnostic_table()[i],
            false,
            b2 as int,
        )),
        b2 >= 0x7C ==> (first_match(b1, b2) matches Some(i) && tests_code(
            diagnostic_table()[i],
            true,
            b1 as int,
        )),
{
    lemma_table_layout();
    lemma_deciding_entry(b1, b2);
}

/// Exactly the pairs 0xFF with 0xFE or 0xFF match no entry, and so decode to
/// the unknown-failure diagnosis.
pub proof fn lemma_unknown_pairs(b1: u8, b2: u8)
    requires
        b1 != 0,
        b2 != 0,
    ensures
        first_match(b1, b2) is None <==> (b1 == 0xFF && b2 >= 0xFE),
        (b1 == 0xFF && b2 >= 0xFE) ==> decoded(b1, b2) == OutcomeView::Diagnosed(UNKNOWN_FAILURE@),
{
    lemma_deciding_entry(b1, b2);
}

} // verus!
