//! PID files and process listings as text: the file holds one integer;
//! a half-written or garbled file reads as "no PID" rather than an
//! error, and a process listing is the PIDs of its lines, one per line
//! that parses.

use vstd::prelude::*;

use crate::strutil::spec_dec_digits;
use crate::strutil::spec_parse_i32;
use crate::strutil::spec_split_lines;
use crate::strutil::spec_trim;
use crate::strutil::parse_i32;
use crate::strutil::split_lines;
use crate::strutil::trim_str;
use crate::strutil::u64_to_dec;

verus! {

/// What a PID file's content denotes: its trimmed text as an integer,
/// or nothing when it does not parse — a concurrent half-written file
/// must read as "no PID", never fail.
pub open spec fn spec_parse_pid(content: Seq<char>) -> Option<i32> {
    spec_parse_i32(spec_trim(content))
}

/// Read a PID out of a PID file's content.
pub fn parse_pid(content: &str) -> (r: Option<i32>)
    ensures
        r == spec_parse_pid(content@),
{
    let trimmed = trim_str(content);
    parse_i32(trimmed.as_str())
}

/// The decimal text of a PID, as written into its file.
pub open spec fn spec_format_pid(pid: int) -> Seq<char> {
    if pid < 0 {
        seq!['-'] + spec_dec_digits((-pid) as nat)
    } else {
        spec_dec_digits(pid as nat)
    }
}

/// Render a PID as the text its file holds.
pub fn format_pid(pid: i32) -> (r: String)
    ensures
        r@ == spec_format_pid(pid as int),
{
    if pid < 0 {
        let mut s = String::from_str("-");
        let magnitude: u64 = (-(pid as i64)) as u64;
        let dec = u64_to_dec(magnitude);
        s.append(dec.as_str());
        proof {
            reveal_strlit("-");
            assert("-"@ =~= seq!['-']);
        }
        s
    } else {
        u64_to_dec(pid as u64)
    }
}

/// The PID a line of listing output contributes: its trimmed text as an
/// integer, or nothing.
pub open spec fn spec_line_pid(line: Seq<char>) -> Seq<i32> {
    match spec_parse_i32(spec_trim(line)) {
        Some(pid) => seq![pid],
        None => seq![],
    }
}

/// The PIDs a sequence of lines contributes, in order.
pub open spec fn spec_pids_of_lines(lines: Seq<Seq<char>>) -> Seq<i32>
    decreases lines.len(),
{
    if lines.len() == 0 {
        seq![]
    } else {
        spec_line_pid(lines[0]) + spec_pids_of_lines(lines.drop_first())
    }
}

/// The PIDs named by a process listing: one per line that parses as an
/// integer after trimming.
pub open spec fn spec_parse_pid_lines(output: Seq<char>) -> Seq<i32> {
    spec_pids_of_lines(spec_split_lines(output))
}

/// Parse the PIDs out of a process listing, one candidate per line,
/// skipping lines that do not parse.
#[verifier::loop_isolation(false)]
pub fn parse_pid_lines(output: &str) -> (r: Vec<i32>)
    ensures
        r@ == spec_parse_pid_lines(output@),
{
    let lines = split_lines(output);
    let ghost all = lines.deep_view();
    let mut pids: Vec<i32> = Vec::new();
    let mut i: usize = 0;
    proof {
        assert(all.skip(0) =~~= all);
    }
    while i < lines.len()
        invariant
            i <= lines@.len(),
            spec_parse_pid_lines(output@) == pids@ + spec_pids_of_lines(all.skip(i as int)),
        decreases lines@.len() - i,
    {
        let ghost tail = all.skip(i as int);
        proof {
            assert(tail[0] == all[i as int]);
            assert(tail.drop_first() =~~= all.skip(i + 1));
        }
        let trimmed = trim_str(lines[i].as_str());
        match parse_i32(trimmed.as_str()) {
            Some(pid) => {
                let ghost pv = pids@;
                pids.push(pid);
                proof {
                    assert(spec_line_pid(all[i as int]) =~= seq![pid]);
                    assert(pv + (seq![pid] + spec_pids_of_lines(all.skip(i + 1))) =~= pids@
                        + spec_pids_of_lines(all.skip(i + 1)));
                }
            },
            None => {
                proof {
                    assert(spec_line_pid(all[i as int]) =~= Seq::<i32>::empty());
                    assert(Seq::<i32>::empty() + spec_pids_of_lines(all.skip(i + 1))
                        =~= spec_pids_of_lines(all.skip(i + 1)));
                }
            },
        }
        i = i + 1;
    }
    proof {
        assert(all.skip(lines@.len() as int) =~~= Seq::<Seq<char>>::empty());
        assert(pids@ + Seq::<i32>::empty() =~= pids@);
    }
    pids
}

} // verus!
