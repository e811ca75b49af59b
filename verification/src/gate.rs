//! The authorization gate: reading the configured operator allow-list, and
//! the membership test that guards the export and broadcast entry points.
//!
//! A malformed allow-list is rejected whole, and the process must refuse to
//! start serving: membership never defaults to allowed.

use vstd::prelude::*;
use vstd::string::StrSliceExecFns;

use crate::validate::i64_of;

verus! {

/// What the comma-separated allow-list text denotes: the ids of its segments
/// in order, or nothing if any segment is not a well-formed id. `cur` is the
/// segment read so far.
pub open spec fn segments_of(s: Seq<char>, cur: Seq<char>) -> Option<Seq<i64>>
    decreases s.len(),
{
    if s.len() == 0 {
        match i64_of(cur) {
            Some(v) => Some(seq![v]),
            None => None,
        }
    } else if s[0] == ',' {
        match i64_of(cur) {
            Some(v) => match segments_of(s.skip(1), Seq::empty()) {
                Some(rest) => Some(seq![v] + rest),
                None => None,
            },
            None => None,
        }
    } else {
        segments_of(s.skip(1), cur.push(s[0]))
    }
}

/// The ids the allow-list text denotes, or nothing if it is malformed.
pub open spec fn operator_list_of(s: Seq<char>) -> Option<Seq<i64>> {
    segments_of(s, Seq::empty())
}

fn parse_segments(s: &str, seg_start: usize, i: usize) -> (r: Option<Vec<i64>>)
    requires
        seg_start <= i <= s@.len(),
    ensures
        r.deep_view() == segments_of(s@.skip(i as int), s@.subrange(seg_start as int, i as int)),
    decreases s@.len() - i,
{
    let n = s.unicode_len();
    if i == n {
        proof {
            assert(s@.skip(i as int) =~= Seq::<char>::empty());
        }
        let head = s.substring_char(seg_start, n);
        match crate::validate::parse_i64(head) {
            Some(v) => {
                let mut out: Vec<i64> = Vec::new();
                out.push(v);
                proof {
                    assert(out.deep_view() =~= seq![v]);
                }
                Some(out)
            },
            None => None,
        }
    } else {
        proof {
            assert(s@.skip(i as int)[0] == s@[i as int]);
            assert(s@.skip(i as int).skip(1) =~= s@.skip(i as int + 1));
        }
        let c = s.get_char(i);
        if c == ',' {
            let head = s.substring_char(seg_start, i);
            match crate::validate::parse_i64(head) {
                Some(v) => {
                    proof {
                        assert(s@.subrange(i as int + 1, i as int + 1) =~= Seq::<char>::empty());
                    }
                    match parse_segments(s, i + 1, i + 1) {
                        Some(mut rest) => {
                            let ghost tail = rest.deep_view();
                            rest.insert(0, v);
                            proof {
                                assert(rest.deep_view() =~= seq![v] + tail);
                            }
                            Some(rest)
                        },
                        None => None,
                    }
                },
                None => None,
            }
        } else {
            proof {
                assert(s@.subrange(seg_start as int, i as int + 1) =~= s@.subrange(
                    seg_start as int,
                    i as int,
                ).push(s@[i as int]));
            }
            parse_segments(s, seg_start, i + 1)
        }
    }
}

/// Reads the configured allow-list: conversation ids separated by commas.
/// Returns the ids exactly when every segment is well-formed; a malformed
/// list yields `None` and must keep the process from starting.
pub fn parse_operator_list(s: &str) -> (r: Option<Vec<i64>>)
    ensures
        r.deep_view() == operator_list_of(s@),
{
    proof {
        assert(s@.skip(0) =~= s@);
        assert(s@.subrange(0, 0) =~= Seq::<char>::empty());
    }
    parse_segments(s, 0, 0)
}

/// Membership of a conversation id in the configured allow-list.
pub fn is_operator(operators: &Vec<i64>, chat_id: i64) -> (r: bool)
    ensures
        r == operators@.contains(chat_id),
{
    let mut i: usize = 0;
    while i < operators.len()
        invariant
            i <= operators@.len(),
            forall|j: int| 0 <= j < i ==> operators@[j] != chat_id,
        decreases operators@.len() - i,
    {
        if operators[i] == chat_id {
            return true;
        }
        i = i + 1;
    }
    false
}

} // verus!
