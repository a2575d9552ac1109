//! Device-family classification from a free-text type label.
//!
//! The family is derived once, by case-sensitive substring matching against
//! known markers in a fixed priority order, and an unmatched label falls back
//! to the N-channel MOSFET default.

use vstd::prelude::*;
use vstd::string::StrSliceExecFns;

verus! {

/// Transistor device families.
#[derive(Debug, Clone, PartialEq, Eq, Structural)]
pub enum TransistorType {
    NChannelMosfet,
    PChannelMosfet,
    GaNFet,
    NpnBjt,
    PnpBjt,
    Igbt,
}

/// The needle occurs in the haystack starting at position `k`.
pub open spec fn match_at(hay: Seq<char>, needle: Seq<char>, k: int) -> bool {
    &&& 0 <= k
    &&& k + needle.len() <= hay.len()
    &&& forall|j: int| 0 <= j < needle.len() ==> hay[k + j] == needle[j]
}

/// The needle occurs somewhere in the haystack (case-sensitive).
pub open spec fn contains_seq(hay: Seq<char>, needle: Seq<char>) -> bool {
    exists|k: int| match_at(hay, needle, k)
}

/// Which family a label denotes: the first marker set that matches wins, and
/// an unmatched label defaults to the N-channel MOSFET family.
pub open spec fn family_of(label: Seq<char>) -> TransistorType {
    if contains_seq(label, "MOSFET"@) && contains_seq(label, "N-Channel"@) {
        TransistorType::NChannelMosfet
    } else if contains_seq(label, "MOSFET"@) && contains_seq(label, "P-Channel"@) {
        TransistorType::PChannelMosfet
    } else if contains_seq(label, "GaN"@) {
        TransistorType::GaNFet
    } else if contains_seq(label, "NPN"@) {
        TransistorType::NpnBjt
    } else if contains_seq(label, "PNP"@) {
        TransistorType::PnpBjt
    } else if contains_seq(label, "IGBT"@) {
        TransistorType::Igbt
    } else {
        TransistorType::NChannelMosfet
    }
}

/// The families whose conduction loss is resistive (uses the on-resistance);
/// the remaining families use a saturation-voltage term.
pub open spec fn is_resistive_family(t: TransistorType) -> bool {
    t == TransistorType::NChannelMosfet || t == TransistorType::PChannelMosfet || t
        == TransistorType::GaNFet
}

/// Case-sensitive substring search over the characters of the two strings.
fn str_contains(hay: &str, needle: &str) -> (r: bool)
    ensures
        r == contains_seq(hay@, needle@),
{
    let hl = hay.unicode_len();
    let nl = needle.unicode_len();
    if nl > hl {
        return false;
    }
    let mut k: usize = 0;
    while k <= hl - nl
        invariant
            hl == hay@.len(),
            nl == needle@.len(),
            nl <= hl,
            k <= hl - nl + 1,
            forall|k2: int| 0 <= k2 < k ==> !match_at(hay@, needle@, k2),
        decreases hl - nl + 1 - k,
    {
        let mut j: usize = 0;
        let mut matched = true;
        while matched && j < nl
            invariant
                hl == hay@.len(),
                nl == needle@.len(),
                k + nl <= hl,
                j <= nl,
                matched ==> forall|j2: int| 0 <= j2 < j ==> hay@[k + j2] == needle@[j2],
                !matched ==> !match_at(hay@, needle@, k as int),
            decreases nl - j,
        {
            if hay.get_char(k + j) != needle.get_char(j) {
                matched = false;
            }
            j += 1;
        }
        if matched {
            assert(match_at(hay@, needle@, k as int));
            return true;
        }
        k += 1;
    }
    assert forall|k2: int| !match_at(hay@, needle@, k2) by {
        if 0 <= k2 <= hl - nl {
            assert(!match_at(hay@, needle@, k2));
        }
    }
    false
}

impl TransistorType {
    /// The device family uses the resistive conduction-loss model.
    pub fn is_mosfet_type(&self) -> (r: bool)
        ensures
            r == is_resistive_family(*self),
    {
        matches!(
            self,
            TransistorType::NChannelMosfet
                | TransistorType::PChannelMosfet
                | TransistorType::GaNFet
        )
    }

    /// Classify a free-text device label into a family, in the fixed marker
    /// priority order, defaulting to the N-channel MOSFET family.
    pub fn from_string(s: &str) -> (t: Self)
        ensures
            t == family_of(s@),
    {
        if str_contains(s, "MOSFET") && str_contains(s, "N-Channel") {
            TransistorType::NChannelMosfet
        } else if str_contains(s, "MOSFET") && str_contains(s, "P-Channel") {
            TransistorType::PChannelMosfet
        } else if str_contains(s, "GaN") {
            TransistorType::GaNFet
        } else if str_contains(s, "NPN") {
            TransistorType::NpnBjt
        } else if str_contains(s, "PNP") {
            TransistorType::PnpBjt
        } else if str_contains(s, "IGBT") {
            TransistorType::Igbt
        } else {
            TransistorType::NChannelMosfet
        }
    }
}

} // verus!
