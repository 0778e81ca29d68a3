use vstd::prelude::*;
use vstd::string::*;

use crate::outcome::{ParseFail, SpecParse};
use crate::scan::{
    break_end, class_pred, scan_class, scan_while, spec_space1, parse_space1, take_break, CharClass,
};
use crate::token::{spec_key, parse_key};

verus! {

/// The view of an ordered metadata mapping: the key/value pairs in source
/// order.
pub open spec fn kv_views(v: Seq<(String, String)>) -> Seq<(Seq<char>, Seq<char>)> {
    v.map_values(|kv: (String, String)| kv@)
}

/// One metadata line: mandatory indentation, a key, optional spaces, `:`,
/// optional spaces, then the rest of the line as the value.
pub open spec fn spec_metadata_line(s: Seq<char>, i: int) -> SpecParse<(Seq<char>, Seq<char>)>
    recommends
        0 <= i <= s.len(),
{
    match spec_space1(s, i) {
        SpecParse::Found { next: j, .. } => match spec_key(s, j) {
            SpecParse::Found { next: k, val: key } => {
                let k2 = scan_while(s, k, class_pred(CharClass::Space));
                if k2 < s.len() && s[k2] == ':' {
                    let v = scan_while(s, k2 + 1, class_pred(CharClass::Space));
                    let e = scan_while(s, v, class_pred(CharClass::NotBreak));
                    let next = if e == s.len() {
                        e
                    } else {
                        break_end(s, e)
                    };
                    SpecParse::Found { next, val: (key, s.subrange(v, e)) }
                } else {
                    SpecParse::Miss { at: i, hard: false }
                }
            },
            SpecParse::Miss { .. } => SpecParse::Miss { at: i, hard: false },
        },
        SpecParse::Miss { .. } => SpecParse::Miss { at: i, hard: false },
    }
}

pub fn parse_metadata_line(input: &str, pos: usize) -> (r: Result<
    (usize, (String, String)),
    ParseFail,
>)
    requires
        pos <= input@.len(),
    ensures
        match r {
            Ok((next, v)) => {
                &&& spec_metadata_line(input@, pos as int) == (SpecParse::<
                    (Seq<char>, Seq<char>),
                >::Found { next: next as int, val: v@ })
                &&& pos < next <= input@.len()
            },
            Err(f) => spec_metadata_line(input@, pos as int) == (SpecParse::<
                (Seq<char>, Seq<char>),
            >::Miss { at: f.at as int, hard: f.hard }),
        },
{
    let n = input.unicode_len();
    let j = match parse_space1(input, pos) {
        Ok(x) => x,
        Err(_) => {
            return Err(ParseFail { at: pos, hard: false });
        },
    };
    let (k, key) = match parse_key(input, j) {
        Ok(x) => x,
        Err(_) => {
            return Err(ParseFail { at: pos, hard: false });
        },
    };
    let k2 = scan_class(input, k, CharClass::Space);
    if k2 < n && input.get_char(k2) == ':' {
        let v = scan_class(input, k2 + 1, CharClass::Space);
        let e = scan_class(input, v, CharClass::NotBreak);
        let value = input.substring_char(v, e).to_owned();
        let next = if e == n {
            e
        } else {
            take_break(input, e)
        };
        Ok((next, (key, value)))
    } else {
        Err(ParseFail { at: pos, hard: false })
    }
}

/// The metadata block that follows a directive or a posting: zero or more
/// metadata lines, gathered in source order onto the accumulator. The block
/// itself never fails; it simply stops at the first line that is not a
/// metadata line.
pub open spec fn spec_metadata(
    s: Seq<char>,
    i: int,
    acc: Seq<(Seq<char>, Seq<char>)>,
) -> (int, Seq<(Seq<char>, Seq<char>)>)
    decreases s.len() - i
        when 0 <= i <= s.len()
{
    match spec_metadata_line(s, i) {
        SpecParse::Found { next: j, val: kv } => if i < j <= s.len() {
            spec_metadata(s, j, acc.push(kv))
        } else {
            (i, acc)
        },
        SpecParse::Miss { .. } => (i, acc),
    }
}

pub fn parse_metadata(input: &str, pos: usize) -> (r: (usize, Vec<(String, String)>))
    requires
        pos <= input@.len(),
    ensures
        (r.0 as int, kv_views(r.1@)) == spec_metadata(
            input@,
            pos as int,
            Seq::<(Seq<char>, Seq<char>)>::empty(),
        ),
        pos <= r.0 <= input@.len(),
{
    let mut cur = pos;
    let mut out: Vec<(String, String)> = Vec::new();
    proof {
        assert(kv_views(out@) =~= Seq::<(Seq<char>, Seq<char>)>::empty());
    }
    loop
        invariant
            pos <= cur <= input@.len(),
            spec_metadata(input@, pos as int, Seq::<(Seq<char>, Seq<char>)>::empty())
                == spec_metadata(input@, cur as int, kv_views(out@)),
        decreases input@.len() - cur,
    {
        match parse_metadata_line(input, cur) {
            Ok((j, kv)) => {
                proof {
                    assert(kv_views(out@.push(kv)) =~= kv_views(out@).push(kv@));
                }
                out.push(kv);
                cur = j;
            },
            Err(_) => {
                return (cur, out);
            },
        }
    }
}

} // verus!
