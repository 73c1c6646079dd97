//! The closed set of protocol message kinds, parsed from a textual tag at
//! the boundary; any other tag is a typed parse failure.

use vstd::prelude::*;
use vstd::string::StrSliceExecFns;

verus! {

/// The two message kinds the agreement algorithm exchanges between peers:
/// a regular value-exchange round, or a queen-correction round.
#[derive(Debug, Clone, Copy, PartialEq, Eq)]
pub enum PhaseQueenMessage {
    Exchange,
    QueenExchange,
}

/// The message kind a textual tag stands for: exactly `"exchange"` and
/// `"queen_exchange"` (case-sensitive) are recognized.
pub open spec fn spec_classify(s: Seq<char>) -> Option<PhaseQueenMessage> {
    if s == "exchange"@ {
        Some(PhaseQueenMessage::Exchange)
    } else if s == "queen_exchange"@ {
        Some(PhaseQueenMessage::QueenExchange)
    } else {
        None
    }
}

/// Character-by-character equality of two string slices.
fn str_eq(a: &str, b: &str) -> (r: bool)
    ensures
        r == (a@ == b@),
{
    let la = a.unicode_len();
    let lb = b.unicode_len();
    if la != lb {
        return false;
    }
    let mut i: usize = 0;
    while i < la
        invariant
            la == a@.len(),
            lb == b@.len(),
            la == lb,
            i <= la,
            forall|j: int| 0 <= j < i ==> a@[j] == b@[j],
        decreases la - i,
    {
        if a.get_char(i) != b.get_char(i) {
            return false;
        }
        i = i + 1;
    }
    proof {
        assert(a@ =~= b@);
    }
    true
}

impl PhaseQueenMessage {
    /// Parses a message-type tag. Returns the matching kind for the two
    /// exact tags, and a parse failure for every other string, the empty
    /// string and case variants included.
    pub fn from_str(s: &str) -> (r: Result<PhaseQueenMessage, &'static str>)
        ensures
            (match r {
                Ok(m) => spec_classify(s@) == Some(m),
                Err(e) => spec_classify(s@) is None && e@ == "Invalid message type"@,
            }),
    {
        if str_eq(s, "exchange") {
            Ok(PhaseQueenMessage::Exchange)
        } else if str_eq(s, "queen_exchange") {
            Ok(PhaseQueenMessage::QueenExchange)
        } else {
            Err("Invalid message type")
        }
    }
}

} // verus!
