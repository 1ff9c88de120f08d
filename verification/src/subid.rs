//! Parsing of the subid tables (`/etc/subuid`, `/etc/subgid`): colon-
//! separated lines `owner:start:length`, where the owner is either a
//! decimal id or a login name. The parser yields the ranges allowed for
//! one caller; the containment check over those ranges lives with
//! [`crate::container::IdMap`].
use vstd::prelude::*;

verus! {

use crate::bytes::{all_digits, dec_val, eq_bytes, is_u32_digits, parse_u32, split, split_spec};

/// One allowed range from a subid table: ids `start..start+len`.
#[derive(Debug, Clone, Copy, PartialEq, Eq, Structural)]
pub struct SubidRange {
    pub start: u32,
    pub len: u32,
}

/// The owner, start and length fields of one table line, if the line has
/// at least three colon-separated fields and both numbers parse.
pub open spec fn spec_parse_line(l: Seq<u8>) -> Option<(Seq<u8>, u32, u32)> {
    let ps = split_spec(l, 58);
    if ps.len() >= 3 && is_u32_digits(ps[1]) && is_u32_digits(ps[2]) {
        Some((ps[0], dec_val(ps[1]) as u32, dec_val(ps[2]) as u32))
    } else {
        None
    }
}

/// Whether a line's owner field names the caller: an all-digit owner is
/// compared as a decimal id, any other owner as a login name.
pub open spec fn spec_owner_matches(owner: Seq<u8>, uid: u32, username: Option<Seq<u8>>) -> bool {
    if all_digits(owner) {
        is_u32_digits(owner) && dec_val(owner) == uid
    } else {
        username == Some(owner)
    }
}

/// The ranges one line contributes for the caller: one range when the
/// line parses and its owner names the caller, none otherwise.
pub open spec fn spec_line_ranges(l: Seq<u8>, uid: u32, username: Option<Seq<u8>>) -> Seq<
    SubidRange,
> {
    match spec_parse_line(l) {
        Some((owner, start, len)) => if spec_owner_matches(owner, uid, username) {
            seq![SubidRange { start, len }]
        } else {
            Seq::empty()
        },
        None => Seq::empty(),
    }
}

/// The ranges a list of lines contributes, in order.
pub open spec fn spec_ranges_of_lines(
    lines: Seq<Seq<u8>>,
    uid: u32,
    username: Option<Seq<u8>>,
) -> Seq<SubidRange>
    decreases lines.len(),
{
    if lines.len() == 0 {
        Seq::empty()
    } else {
        spec_line_ranges(lines[0], uid, username) + spec_ranges_of_lines(
            lines.drop_first(),
            uid,
            username,
        )
    }
}

/// The ranges a whole table allows the caller, in table order.
pub open spec fn spec_subid_ranges(text: Seq<u8>, uid: u32, username: Option<Seq<u8>>) -> Seq<
    SubidRange,
> {
    spec_ranges_of_lines(split_spec(text, 10), uid, username)
}

/// Decides whether `owner` names the caller.
fn owner_matches(owner: &[u8], uid: u32, username: &Option<Vec<u8>>) -> (r: bool)
    ensures
        r == spec_owner_matches(owner@, uid, username.deep_view()),
{
    let mut digits_only = true;
    let mut i: usize = 0;
    while i < owner.len()
        invariant
            0 <= i <= owner@.len(),
            digits_only == all_digits(owner@.take(i as int)),
        decreases owner@.len() - i,
    {
        proof {
            assert(owner@.take(i as int + 1).drop_last() =~= owner@.take(i as int));
        }
        let b = owner[i];
        if b < 48 || b > 57 {
            digits_only = false;
        }
        proof {
            if digits_only {
                assert forall|k: int| 0 <= k < i + 1 implies crate::bytes::is_digit(
                    #[trigger] owner@.take(i as int + 1)[k],
                ) by {
                    if k < i {
                        assert(owner@.take(i as int)[k] == owner@.take(i as int + 1)[k]);
                    }
                }
            } else {
                if all_digits(owner@.take(i as int)) {
                    assert(!crate::bytes::is_digit(owner@.take(i as int + 1)[i as int]));
                }
            }
        }
        i += 1;
    }
    proof {
        assert(owner@.take(i as int) =~= owner@);
    }
    if digits_only {
        match parse_u32(owner) {
            Some(v) => v == uid,
            None => false,
        }
    } else {
        match username {
            Some(name) => {
                proof {
                    assert(name.deep_view() =~= name@);
                }
                eq_bytes(name.as_slice(), owner)
            },
            None => false,
        }
    }
}

/// Parses a subid table and returns the ranges it allows the caller,
/// in table order. Lines that do not parse are passed over, as are lines
/// owned by someone else.
pub fn subid_ranges(text: &[u8], uid: u32, username: &Option<Vec<u8>>) -> (r: Vec<SubidRange>)
    ensures
        r@ == spec_subid_ranges(text@, uid, username.deep_view()),
{
    let ghost uname = username.deep_view();
    let lines = split(text, 10);
    let ghost spec_lines = split_spec(text@, 10);
    let mut out: Vec<SubidRange> = Vec::new();
    let mut i: usize = 0;
    proof {
        assert(spec_lines.skip(0) =~= spec_lines);
        assert(out@ + spec_ranges_of_lines(spec_lines, uid, uname) =~= spec_ranges_of_lines(
            spec_lines,
            uid,
            uname,
        ));
    }
    while i < lines.len()
        invariant
            0 <= i <= lines@.len(),
            lines@.len() == spec_lines.len(),
            spec_lines == split_spec(text@, 10),
            uname == username.deep_view(),
            forall|k: int| 0 <= k < lines@.len() ==> lines@[k]@ == spec_lines[k],
            spec_subid_ranges(text@, uid, uname) == out@ + spec_ranges_of_lines(
                spec_lines.skip(i as int),
                uid,
                uname,
            ),
        decreases lines@.len() - i,
    {
        proof {
            assert(spec_lines.skip(i as int)[0] == spec_lines[i as int]);
            assert(spec_lines.skip(i as int).drop_first() =~= spec_lines.skip(i as int + 1));
        }
        let ghost line = spec_lines[i as int];
        let parts = split(lines[i].as_slice(), 58);
        if parts.len() >= 3 {
            let start = parse_u32(parts[1].as_slice());
            let len = parse_u32(parts[2].as_slice());
            match (start, len) {
                (Some(start), Some(len)) => {
                    if owner_matches(parts[0].as_slice(), uid, username) {
                        out.push(SubidRange { start, len });
                        proof {
                            assert(spec_line_ranges(line, uid, uname) =~= seq![
                                SubidRange { start, len },
                            ]);
                        }
                    } else {
                        proof {
                            assert(spec_line_ranges(line, uid, uname) =~= Seq::<
                                SubidRange,
                            >::empty());
                        }
                    }
                },
                _ => {
                    proof {
                        assert(spec_parse_line(line) is None);
                        assert(spec_line_ranges(line, uid, uname) =~= Seq::<SubidRange>::empty());
                    }
                },
            }
        } else {
            proof {
                assert(spec_parse_line(line) is None);
                assert(spec_line_ranges(line, uid, uname) =~= Seq::<SubidRange>::empty());
            }
        }
        proof {
            assert(out@ + spec_ranges_of_lines(spec_lines.skip(i as int + 1), uid, uname)
                =~= spec_subid_ranges(text@, uid, uname));
        }
        i += 1;
    }
    proof {
        assert(spec_ranges_of_lines(spec_lines.skip(i as int), uid, uname) =~= Seq::<
            SubidRange,
        >::empty());
        assert(out@ + spec_ranges_of_lines(spec_lines.skip(i as int), uid, uname) =~= out@);
    }
    out
}

} // verus!
