//! Extraction of a single named field from the status text blob: the first
//! line that begins with the key, anchored at column zero, yields its
//! second whitespace-delimited token.

use vstd::prelude::*;

use crate::error::ProcessError;
use crate::text::spec_split;
use crate::text::spec_tokens;
use crate::text::split_char;
use crate::text::tokenize;

verus! {

/// Whether `line` begins with `key` at column zero.
pub open spec fn spec_starts_with(line: Seq<char>, key: Seq<char>) -> bool {
    line.len() >= key.len() && line.take(key.len() as int) == key
}

/// Index of the first line at or after `i` that begins with `key`, or
/// `lines.len()` if there is none.
pub open spec fn find_key_line(lines: Seq<Seq<char>>, key: Seq<char>, i: int) -> int
    decreases lines.len() - i,
{
    if i >= lines.len() {
        lines.len() as int
    } else if spec_starts_with(lines[i], key) {
        i
    } else {
        find_key_line(lines, key, i + 1)
    }
}

/// What looking up `key` in the status blob returns: the second
/// whitespace-delimited token of the first line that begins with `key`;
/// `NotFound` if no line does; `FieldMissing` if that line has no second
/// token.
pub open spec fn spec_field(blob: Seq<char>, key: Seq<char>) -> Result<Seq<char>, ProcessError> {
    let lines = spec_split(blob, '\n');
    let idx = find_key_line(lines, key, 0);
    if idx == lines.len() {
        Err(ProcessError::NotFound)
    } else {
        let toks = spec_tokens(lines[idx]);
        if toks.len() < 2 {
            Err(ProcessError::FieldMissing)
        } else {
            Ok(toks[1])
        }
    }
}

/// Whether `line` begins with `key`, character for character.
pub fn starts_with_str(line: &str, key: &str) -> (r: bool)
    ensures
        r == spec_starts_with(line@, key@),
{
    let nl = line.unicode_len();
    let nk = key.unicode_len();
    if nk > nl {
        return false;
    }
    let mut i: usize = 0;
    while i < nk
        invariant
            nl == line@.len(),
            nk == key@.len(),
            nk <= nl,
            i <= nk,
            forall|j: int| 0 <= j < i ==> line@[j] == key@[j],
        decreases nk - i,
    {
        if line.get_char(i) != key.get_char(i) {
            proof {
                assert(line@.take(nk as int)[i as int] == line@[i as int]);
            }
            return false;
        }
        i += 1;
    }
    proof {
        assert(line@.take(nk as int) =~= key@);
    }
    true
}

/// Scans the status blob `status` line by line for the first line that
/// begins with `key`, and returns that line's second whitespace-delimited
/// token; fails with `NotFound` when no line matches and with
/// `FieldMissing` when the matching line has no second token.
pub fn get_proc_status_value(status: &str, key: &str) -> (r: Result<String, ProcessError>)
    ensures
        match r {
            Ok(v) => spec_field(status@, key@) == Ok::<Seq<char>, ProcessError>(v@),
            Err(e) => spec_field(status@, key@) == Err::<Seq<char>, ProcessError>(e),
        },
{
    let lines = split_char(status, '\n');
    let ghost lseq = lines.deep_view();
    let n = lines.len();
    let mut i: usize = 0;
    while i < n
        invariant
            lseq == spec_split(status@, '\n'),
            lseq == lines.deep_view(),
            n == lines@.len(),
            i <= n,
            find_key_line(lseq, key@, 0) == find_key_line(lseq, key@, i as int),
        decreases n - i,
    {
        proof {
            assert(lseq[i as int] == lines@[i as int]@);
        }
        if starts_with_str(lines[i].as_str(), key) {
            let toks = tokenize(lines[i].as_str());
            proof {
                assert(find_key_line(lseq, key@, i as int) == i);
            }
            if toks.len() < 2 {
                return Err(ProcessError::FieldMissing);
            }
            proof {
                assert(toks.deep_view()[1] == toks@[1]@);
            }
            return Ok(toks[1].clone());
        }
        i += 1;
    }
    Err(ProcessError::NotFound)
}

} // verus!
