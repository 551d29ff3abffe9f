//! Match rules for signal subscriptions.
//!
//! A [`Match`] is one criterion of a signal subscription; a sequence of
//! matches renders as the comma-joined rule string that the message bus's
//! subscription call expects.

use vstd::prelude::*;
use crate::text::{dec_digits, u64_to_string};

verus! {

/// Match rules for notifications.
#[derive(Debug, PartialEq)]
pub enum Match {
    /// Match on type: `type='…'`.
    Type(String),
    /// Match on sender: `sender='…'`.
    Sender(String),
    /// Match on interface: `interface='…'`.
    Interface(String),
    /// Match on member: `member='…'`.
    Member(String),
    /// Match on path: `path='…'`.
    Path(String),
    /// Match on destination: `destination='…'`.
    Destination(String),
    /// Match on the n-th argument: `arg<n>='…'`.
    Arg(usize, String),
}

/// The rule fragment of one match.
pub open spec fn fragment_of(m: Match) -> Seq<char> {
    match m {
        Match::Type(s) => "type='"@ + s@ + "'"@,
        Match::Sender(s) => "sender='"@ + s@ + "'"@,
        Match::Interface(s) => "interface='"@ + s@ + "'"@,
        Match::Member(s) => "member='"@ + s@ + "'"@,
        Match::Path(s) => "path='"@ + s@ + "'"@,
        Match::Destination(s) => "destination='"@ + s@ + "'"@,
        Match::Arg(n, s) => "arg"@ + dec_digits(n as nat) + "='"@ + s@ + "'"@,
    }
}

/// The rule string of a sequence of matches: their fragments joined by
/// commas.
pub open spec fn rule_of(ms: Seq<Match>) -> Seq<char>
    decreases ms.len(),
{
    if ms.len() == 0 {
        Seq::empty()
    } else if ms.len() == 1 {
        fragment_of(ms[0])
    } else {
        fragment_of(ms[0]) + ","@ + rule_of(ms.skip(1))
    }
}

impl Match {
    /// Render this match as one rule fragment.
    pub fn fragment(&self) -> (s: String)
        ensures
            s@ == fragment_of(*self),
    {
        match self {
            Match::Type(v) => {
                let mut s = String::from_str("type='");
                s.append(v.as_str());
                s.append("'");
                s
            },
            Match::Sender(v) => {
                let mut s = String::from_str("sender='");
                s.append(v.as_str());
                s.append("'");
                s
            },
            Match::Interface(v) => {
                let mut s = String::from_str("interface='");
                s.append(v.as_str());
                s.append("'");
                s
            },
            Match::Member(v) => {
                let mut s = String::from_str("member='");
                s.append(v.as_str());
                s.append("'");
                s
            },
            Match::Path(v) => {
                let mut s = String::from_str("path='");
                s.append(v.as_str());
                s.append("'");
                s
            },
            Match::Destination(v) => {
                let mut s = String::from_str("destination='");
                s.append(v.as_str());
                s.append("'");
                s
            },
            Match::Arg(n, v) => {
                let mut s = String::from_str("arg");
                s.append(u64_to_string(*n as u64).as_str());
                s.append("='");
                s.append(v.as_str());
                s.append("'");
                s
            },
        }
    }
}

/// The rule string of the matches from position `i` on.
fn rules_from(matches: &[Match], i: usize) -> (s: String)
    requires
        i <= matches@.len(),
    ensures
        s@ == rule_of(matches@.skip(i as int)),
    decreases matches@.len() - i,
{
    let ghost tail = matches@.skip(i as int);
    if i == matches.len() {
        String::new()
    } else {
        let mut s = matches[i].fragment();
        proof {
            assert(tail[0] == matches@[i as int]);
        }
        if i + 1 < matches.len() {
            s.append(",");
            let rest = rules_from(matches, i + 1);
            s.append(rest.as_str());
            proof {
                assert(tail.skip(1) =~= matches@.skip(i + 1));
                assert(s@ =~= fragment_of(tail[0]) + ","@ + rule_of(tail.skip(1)));
            }
            s
        } else {
            s
        }
    }
}

/// Return a rule string for a sequence of matches: the fragments of the
/// matches, in order, joined by commas.
pub fn rule_string(matches: &[Match]) -> (s: String)
    ensures
        s@ == rule_of(matches@),
{
    let s = rules_from(matches, 0);
    proof {
        assert(matches@.skip(0) =~= matches@);
    }
    s
}

} // verus!
