use vstd::prelude::*;
use vstd::std_specs::iter::IteratorSpec;

verus! {

broadcast use vstd::string::axiom_spec_iter, vstd::string::next_postcondition;

/// One of the characters Unicode gives the White_Space property, the set that
/// `str::trim` strips: the ASCII whitespace controls and space, next line,
/// no-break space, ogham space mark, the en-quad..hair-space range, line and
/// paragraph separators, narrow no-break space, medium mathematical space and
/// ideographic space.
pub open spec fn whitespace_char(c: char) -> bool {
    ||| c == '\u{0009}'
    ||| c == '\u{000A}'
    ||| c == '\u{000B}'
    ||| c == '\u{000C}'
    ||| c == '\u{000D}'
    ||| c == '\u{0020}'
    ||| c == '\u{0085}'
    ||| c == '\u{00A0}'
    ||| c == '\u{1680}'
    ||| c == '\u{2000}'
    ||| c == '\u{2001}'
    ||| c == '\u{2002}'
    ||| c == '\u{2003}'
    ||| c == '\u{2004}'
    ||| c == '\u{2005}'
    ||| c == '\u{2006}'
    ||| c == '\u{2007}'
    ||| c == '\u{2008}'
    ||| c == '\u{2009}'
    ||| c == '\u{200A}'
    ||| c == '\u{2028}'
    ||| c == '\u{2029}'
    ||| c == '\u{202F}'
    ||| c == '\u{205F}'
    ||| c == '\u{3000}'
}

/// The text is nothing but whitespace, the empty text counted in: exactly
/// when trimming it would leave it empty.
pub open spec fn blank_text(s: Seq<char>) -> bool {
    forall|i: int| 0 <= i < s.len() ==> whitespace_char(#[trigger] s[i])
}

/// Decide whether one character is whitespace in the sense above.
fn is_whitespace_char(c: char) -> (r: bool)
    ensures
        r == whitespace_char(c),
{
    c == '\u{0009}' || c == '\u{000A}' || c == '\u{000B}' || c == '\u{000C}' || c == '\u{000D}'
        || c == '\u{0020}' || c == '\u{0085}' || c == '\u{00A0}' || c == '\u{1680}'
        || c == '\u{2000}' || c == '\u{2001}' || c == '\u{2002}' || c == '\u{2003}'
        || c == '\u{2004}' || c == '\u{2005}' || c == '\u{2006}' || c == '\u{2007}'
        || c == '\u{2008}' || c == '\u{2009}' || c == '\u{200A}' || c == '\u{2028}'
        || c == '\u{2029}' || c == '\u{202F}' || c == '\u{205F}' || c == '\u{3000}'
}

/// Decide whether a mining address is blank (empty or whitespace only), which
/// the engine rejects before starting anything.
pub fn address_is_blank(s: &str) -> (blank: bool)
    ensures
        blank == blank_text(s@),
{
    let mut it = s.chars();
    let ghost mut seen: int = 0;
    loop
        invariant
            0 <= seen <= s@.len(),
            it.obeys_prophetic_iter_laws(),
            it.remaining() =~= s@.skip(seen),
            forall|j: int| 0 <= j < seen ==> whitespace_char(#[trigger] s@[j]),
        decreases s@.len() - seen,
    {
        match it.next() {
            None => {
                return true;
            },
            Some(c) => {
                proof {
                    assert(c == s@.skip(seen)[0]);
                    assert(c == s@[seen]);
                }
                if !is_whitespace_char(c) {
                    proof {
                        assert(!whitespace_char(s@[seen]));
                    }
                    return false;
                }
                proof {
                    assert(s@.skip(seen).drop_first() =~= s@.skip(seen + 1));
                    seen = seen + 1;
                }
            },
        }
    }
}

/// What a caller hands the engine when starting it: where to mine to, how many
/// search threads, an optional per-thread throttle pause, and how often to ask
/// the node for a fresh template.  Durations are carried in milliseconds.
#[derive(Clone, Debug)]
pub struct CpuMinerConfig {
    pub mining_address: String,
    pub threads: usize,
    pub throttle_millis: Option<u64>,
    pub template_poll_millis: u64,
}

/// Why the engine refused to start.
#[derive(Clone, Copy, PartialEq, Eq, Structural, Debug)]
pub enum StartError {
    /// The mining address was empty or nothing but whitespace.
    BlankMiningAddress,
}

impl StartError {
    /// The operator-facing description of the error.
    pub fn message(&self) -> (m: &'static str)
        ensures
            m@ == "mining address is required"@,
    {
        "mining address is required"
    }
}

impl CpuMinerConfig {
    /// A configuration is accepted exactly when its mining address is not
    /// blank.
    pub open spec fn accepted(self) -> bool {
        !blank_text(self.mining_address@)
    }

    /// Check the configuration as the engine does before spawning anything.
    pub fn validate(&self) -> (r: Result<(), StartError>)
        ensures
            r is Ok <==> self.accepted(),
            r is Err ==> r == Result::<(), StartError>::Err(StartError::BlankMiningAddress),
    {
        if address_is_blank(self.mining_address.as_str()) {
            Err(StartError::BlankMiningAddress)
        } else {
            Ok(())
        }
    }

    /// The number of search threads actually started: never zero, a request
    /// for zero is rounded up to one.
    pub fn effective_threads(&self) -> (n: usize)
        ensures
            n == if self.threads == 0 { 1usize } else { self.threads },
            n >= 1,
    {
        if self.threads == 0 {
            1
        } else {
            self.threads
        }
    }
}

} // verus!
