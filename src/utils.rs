//! Splitting a command line into arguments.
use vstd::prelude::*;

verus! {

/// The scanner's state: the arguments completed so far, the one being read,
/// and whether a quote is open.
pub type ArgScan = (Seq<Seq<char>>, Seq<char>, bool);

/// One character read: a `"` opens or closes a quote and is dropped; a
/// space outside quotes ends the current argument, if it has any
/// character; any other character is kept.
pub open spec fn scan_char(st: ArgScan, c: char) -> ArgScan {
    if c == '"' {
        (st.0, st.1, !st.2)
    } else if c == ' ' && !st.2 {
        if st.1.len() > 0 {
            (st.0.push(st.1), Seq::empty(), st.2)
        } else {
            st
        }
    } else {
        (st.0, st.1.push(c), st.2)
    }
}

/// The state after reading all of `s`.
pub open spec fn scan_args(s: Seq<char>) -> ArgScan
    decreases s.len(),
{
    if s.len() == 0 {
        (Seq::empty(), Seq::empty(), false)
    } else {
        scan_char(scan_args(s.drop_last()), s.last())
    }
}

/// The arguments of a command line: words split at spaces, where a quoted
/// part may hold spaces. An unclosed quote runs to the end.
pub open spec fn split_args(s: Seq<char>) -> Seq<Seq<char>> {
    let st = scan_args(s);
    if st.1.len() > 0 {
        st.0.push(st.1)
    } else {
        st.0
    }
}

pub open spec fn texts(v: Seq<String>) -> Seq<Seq<char>> {
    v.map_values(|a: String| a@)
}

pub fn parse_args(input: &str) -> (r: Vec<String>)
    ensures
        texts(r@) == split_args(input@),
        forall|i: int| 0 <= i < r.len() ==> (#[trigger] r@[i])@.len() > 0,
{
    let n = input.unicode_len();
    let mut args: Vec<String> = Vec::new();
    let mut current = String::new();
    let mut in_quotes = false;
    let mut i: usize = 0;
    while i < n
        invariant
            n == input@.len(),
            i <= n,
            (texts(args@), current@, in_quotes) == scan_args(input@.subrange(0, i as int)),
            forall|k: int| 0 <= k < args.len() ==> (#[trigger] args@[k])@.len() > 0,
        decreases n - i,
    {
        let ghost before = input@.subrange(0, i as int);
        let ghost after = input@.subrange(0, i + 1);
        assert(after.drop_last() =~= before);
        let c = input.get_char(i);
        if c == '"' {
            in_quotes = !in_quotes;
        } else if c == ' ' && !in_quotes {
            if current.unicode_len() > 0 {
                let done = current;
                current = String::new();
                let ghost old_args = args@;
                args.push(done);
                assert(texts(args@) =~= texts(old_args).push(done@));
            }
        } else {
            let piece = input.substring_char(i, i + 1);
            assert(piece@ =~= seq![c]);
            current.append(piece);
        }
        i = i + 1;
    }
    assert(input@.subrange(0, n as int) =~= input@);
    if current.unicode_len() > 0 {
        let ghost old_args = args@;
        args.push(current);
        assert(texts(args@) =~= texts(old_args).push(current@));
    }
    args
}

} // verus!
