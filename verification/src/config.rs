//! Configuration templates and the configuration-selection policy.
//!
//! A configuration is represented here by the one attribute the policy reads:
//! its multisample count. The platform layer enumerates the matching
//! configurations and hands their sample counts over in enumeration order;
//! the index selected here refers back into that enumeration.

use vstd::prelude::*;

verus! {

/// The template that enumerated configurations must match: at least eight
/// bits of alpha, compatibility with the target window, and an on-screen
/// (windowed) surface type.
#[derive(Clone, Copy, Debug, PartialEq, Eq, Structural)]
pub struct ConfigTemplateReq {
    /// Minimum number of alpha bits.
    pub alpha_bits: u8,
    /// The configuration must be compatible with the target window.
    pub window_compatible: bool,
    /// The configuration must support an on-screen (windowed) surface.
    pub on_screen: bool,
}

/// Build the configuration template used by every acquisition.
pub fn config_template() -> (r: ConfigTemplateReq)
    ensures
        r.alpha_bits == 8,
        r.window_compatible,
        r.on_screen,
{
    ConfigTemplateReq { alpha_bits: 8, window_compatible: true, on_screen: true }
}

/// The index of the first entry of `s` equal to `p`, if any.
pub open spec fn first_match_index(s: Seq<u8>, p: u8) -> Option<int>
    decreases s.len(),
{
    if s.len() == 0 {
        None
    } else if s[0] == p {
        Some(0int)
    } else {
        match first_match_index(s.drop_first(), p) {
            Some(i) => Some(i + 1),
            None => None,
        }
    }
}

/// The index of the first entry of `s` holding the maximal value; later
/// entries replace the candidate only when strictly greater, so among equal
/// maxima the first one seen wins.
pub open spec fn first_max_index(s: Seq<u8>) -> int
    recommends
        s.len() > 0,
    decreases s.len(),
{
    if s.len() <= 1 {
        0
    } else {
        let b = first_max_index(s.drop_last());
        if s.last() > s[b] {
            s.len() - 1
        } else {
            b
        }
    }
}

/// `i` is the index of the first maximal entry of `s`.
pub open spec fn is_first_max(s: Seq<u8>, i: int) -> bool {
    &&& 0 <= i < s.len()
    &&& forall|j: int| 0 <= j < s.len() ==> s[j] <= s[i]
    &&& forall|j: int| 0 <= j < i ==> s[j] < s[i]
}

/// The selection policy over the enumerated sample counts: with a
/// preference, the first exact match; with none, or when nothing matches
/// the preference exactly, the first maximal entry. Only an empty
/// enumeration selects nothing.
pub open spec fn spec_select_config(s: Seq<u8>, prefer: Option<u8>) -> Option<int> {
    if s.len() == 0 {
        None
    } else {
        match prefer {
            Some(p) => match first_match_index(s, p) {
                Some(i) => Some(i),
                None => Some(first_max_index(s)),
            },
            None => Some(first_max_index(s)),
        }
    }
}

/// What `first_match_index` returns is the first match: a hit lies in
/// range, holds `p`, and nothing before it does; a miss means no entry
/// holds `p` at all.
pub proof fn lemma_first_match_characterization(s: Seq<u8>, p: u8)
    ensures
        first_match_index(s, p) matches Some(i) ==> 0 <= i < s.len() && s[i] == p && (forall|j: int|
            0 <= j < i ==> s[j] != p),
        first_match_index(s, p) is None ==> forall|j: int| 0 <= j < s.len() ==> s[j] != p,
    decreases s.len(),
{
    if s.len() > 0 && s[0] != p {
        let rest = s.drop_first();
        lemma_first_match_characterization(rest, p);
        assert forall|j: int| 1 <= j < s.len() implies s[j] == rest[j - 1] by {}
        match first_match_index(rest, p) {
            Some(i) => {
                assert(first_match_index(s, p) == Some(i + 1));
                assert(s[i + 1] == rest[i]);
                assert forall|j: int| 0 <= j < i + 1 implies s[j] != p by {
                    if j >= 1 {
                        assert(rest[j - 1] != p);
                    }
                }
            },
            None => {
                assert forall|j: int| 0 <= j < s.len() implies s[j] != p by {
                    if j >= 1 {
                        assert(rest[j - 1] != p);
                    }
                }
            },
        }
    }
}

/// What `first_max_index` returns is the first maximal entry.
pub proof fn lemma_first_max_characterization(s: Seq<u8>)
    requires
        s.len() > 0,
    ensures
        is_first_max(s, first_max_index(s)),
    decreases s.len(),
{
    if s.len() > 1 {
        lemma_first_max_characterization(s.drop_last());
        assert forall|j: int| 0 <= j < s.drop_last().len() implies s.drop_last()[j] == s[j] by {}
    }
}

/// At most one index is the first maximal entry.
pub proof fn lemma_first_max_unique(s: Seq<u8>, i: int, j: int)
    requires
        is_first_max(s, i),
        is_first_max(s, j),
    ensures
        i == j,
{
    if i < j {
        assert(s[i] < s[j]);
        assert(s[j] <= s[i]);
    }
    if j < i {
        assert(s[j] < s[i]);
        assert(s[i] <= s[j]);
    }
}

/// Select one configuration from the enumerated sample counts.
///
/// With a preference, the first configuration whose sample count equals it
/// exactly is selected; if none matches exactly, or no preference was
/// given, the first configuration with the greatest sample count is
/// selected instead. Only an empty enumeration yields `None`.
pub fn select_config(samples: &Vec<u8>, prefer: Option<u8>) -> (r: Option<usize>)
    ensures
        r is Some <==> samples@.len() > 0,
        r matches Some(i) ==> {
            &&& spec_select_config(samples@, prefer) == Some(i as int)
            &&& match prefer {
                Some(p) => if exists|j: int| 0 <= j < samples@.len() && samples@[j] == p {
                    &&& 0 <= i < samples@.len()
                    &&& samples@[i as int] == p
                    &&& forall|j: int| 0 <= j < i ==> samples@[j] != p
                } else {
                    is_first_max(samples@, i as int)
                },
                None => is_first_max(samples@, i as int),
            }
        },
{
    if samples.len() == 0 {
        return None;
    }
    if let Some(p) = prefer {
        let mut k: usize = 0;
        while k < samples.len()
            invariant
                prefer == Some(p),
                0 <= k <= samples@.len(),
                forall|j: int| 0 <= j < k ==> samples@[j] != p,
            decreases samples@.len() - k,
        {
            if samples[k] == p {
                proof {
                    lemma_first_match_prefix(samples@, p, k as int);
                    assert(exists|j: int| 0 <= j < samples@.len() && samples@[j] == p);
                }
                return Some(k);
            }
            k += 1;
        }
    }
    let mut best: usize = 0;
    let mut m: usize = 1;
    while m < samples.len()
        invariant
            0 <= best < m <= samples@.len(),
            samples@.len() > 0,
            forall|j: int| 0 <= j < m ==> samples@[j] <= samples@[best as int],
            forall|j: int| 0 <= j < best ==> samples@[j] < samples@[best as int],
        decreases samples@.len() - m,
    {
        if samples[m] > samples[best] {
            best = m;
        }
        m += 1;
    }
    proof {
        lemma_first_max_characterization(samples@);
        lemma_first_max_unique(samples@, best as int, first_max_index(samples@));
        match prefer {
            Some(p) => {
                lemma_first_match_characterization(samples@, p);
                assert(forall|j: int| 0 <= j < samples@.len() ==> samples@[j] != p);
                assert(first_match_index(samples@, p) is None);
            },
            None => {},
        }
    }
    Some(best)
}

/// If the first `k` entries miss `p` and `s[k] == p`, then `k` is the
/// first match.
proof fn lemma_first_match_prefix(s: Seq<u8>, p: u8, k: int)
    requires
        0 <= k < s.len(),
        s[k] == p,
        forall|j: int| 0 <= j < k ==> s[j] != p,
    ensures
        first_match_index(s, p) == Some(k),
    decreases s.len(),
{
    if k > 0 {
        lemma_first_match_prefix(s.drop_first(), p, k - 1);
        assert forall|j: int| 0 <= j < s.drop_first().len() implies s.drop_first()[j] == s[j + 1] by {}
    }
}

} // verus!
