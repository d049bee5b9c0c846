//! Interpretation of a `mapnik-config` invocation.
//!
//! Running the `mapnik-config` executable is process I/O and is done by the
//! embedding application; this module decides what the outcome of such an
//! invocation means: a failed run carries its diagnostic output, a
//! successful one yields its standard output with surrounding whitespace
//! removed.

use vstd::prelude::*;

verus! {

/// Failure to obtain a value from `mapnik-config`.
///
/// `RunError` carries the diagnostic bytes the command printed.
#[derive(Debug, Clone, PartialEq, Eq)]
pub enum MapnikConfigError {
    RunError(Vec<u8>),
}

/// The whitespace bytes removed from the edges of the command's output.
pub open spec fn is_config_whitespace(b: u8) -> bool {
    b == 32 || b == 9 || b == 10 || b == 12 || b == 13
}

/// `s` without its leading whitespace bytes.
pub open spec fn trim_front(s: Seq<u8>) -> Seq<u8>
    decreases s.len(),
{
    if s.len() > 0 && is_config_whitespace(s[0]) {
        trim_front(s.drop_first())
    } else {
        s
    }
}

/// `s` without its trailing whitespace bytes.
pub open spec fn trim_back(s: Seq<u8>) -> Seq<u8>
    decreases s.len(),
{
    if s.len() > 0 && is_config_whitespace(s.last()) {
        trim_back(s.drop_last())
    } else {
        s
    }
}

/// `s` without leading and trailing whitespace bytes.
pub open spec fn trimmed(s: Seq<u8>) -> Seq<u8> {
    trim_back(trim_front(s))
}

fn is_ws(b: u8) -> (r: bool)
    ensures
        r == is_config_whitespace(b),
{
    b == 32 || b == 9 || b == 10 || b == 12 || b == 13
}

/// Remove leading and trailing whitespace from the command's output bytes.
pub fn trim_config_output(bytes: &Vec<u8>) -> (r: Vec<u8>)
    ensures
        r@ == trimmed(bytes@),
{
    let ghost s = bytes@;
    let len = bytes.len();
    proof {
        assert(s.subrange(0, len as int) =~= s);
    }
    let mut lo: usize = 0;
    while lo < len && is_ws(bytes[lo])
        invariant
            len == s.len(),
            bytes@ == s,
            lo <= len,
            trim_front(s) == trim_front(s.subrange(lo as int, len as int)),
        decreases len - lo,
    {
        proof {
            let sub = s.subrange(lo as int, len as int);
            assert(sub[0] == s[lo as int]);
            assert(sub.drop_first() =~= s.subrange(lo as int + 1, len as int));
        }
        lo = lo + 1;
    }
    proof {
        if lo < len {
            assert(trim_front(s) =~= s.subrange(lo as int, len as int));
        } else {
            assert(s.subrange(lo as int, len as int) =~= Seq::<u8>::empty());
        }
    }
    let mut hi: usize = len;
    while hi > lo && is_ws(bytes[hi - 1])
        invariant
            len == s.len(),
            bytes@ == s,
            lo <= hi <= len,
            trim_front(s) == trim_front(s.subrange(lo as int, len as int)),
            trim_back(s.subrange(lo as int, len as int)) == trim_back(
                s.subrange(lo as int, hi as int),
            ),
        decreases hi - lo,
    {
        proof {
            let sub = s.subrange(lo as int, hi as int);
            assert(sub.last() == s[hi - 1]);
            assert(sub.drop_last() =~= s.subrange(lo as int, hi as int - 1));
        }
        hi = hi - 1;
    }
    proof {
        if hi > lo {
            assert(trim_back(s.subrange(lo as int, hi as int)) =~= s.subrange(
                lo as int,
                hi as int,
            ));
        } else {
            assert(s.subrange(lo as int, hi as int) =~= Seq::<u8>::empty());
        }
        assert(trimmed(s) == s.subrange(lo as int, hi as int));
    }
    let mut r: Vec<u8> = Vec::new();
    let mut i: usize = lo;
    while i < hi
        invariant
            len == s.len(),
            bytes@ == s,
            lo <= i <= hi <= len,
            r@ == s.subrange(lo as int, i as int),
        decreases hi - i,
    {
        r.push(bytes[i]);
        proof {
            assert(s.subrange(lo as int, i as int).push(s[i as int]) =~= s.subrange(
                lo as int,
                i as int + 1,
            ));
        }
        i = i + 1;
    }
    r
}

/// Turn the outcome of running `mapnik-config` into the value it reported.
///
/// A successful run yields its standard output trimmed of surrounding
/// whitespace; a failed run is reported with the bytes it printed to its
/// error stream.
pub fn mapnik_config_output(success: bool, stdout: Vec<u8>, stderr: Vec<u8>) -> (r: Result<
    Vec<u8>,
    MapnikConfigError,
>)
    ensures
        success ==> (r matches Ok(out) && out@ == trimmed(stdout@)),
        !success ==> (r matches Err(e) && e == MapnikConfigError::RunError(stderr)),
{
    if success {
        Ok(trim_config_output(&stdout))
    } else {
        Err(MapnikConfigError::RunError(stderr))
    }
}

} // verus!
