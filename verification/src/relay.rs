//! Transforms applied by the stdio relay: masking of console output lines
//! and encoding of operator commands for the child's input stream.

use vstd::prelude::*;

verus! {

/// An ASCII digit, `'0'` through `'9'`.
pub open spec fn is_ascii_digit_char(c: char) -> bool {
    48 <= c as u32 <= 57
}

/// What one character of a console line becomes: digits are replaced by the
/// mask character, everything else is kept.
pub open spec fn mask_char(c: char) -> char {
    if is_ascii_digit_char(c) {
        '*'
    } else {
        c
    }
}

/// A console line after masking: every ASCII digit replaced by `'*'`.
pub open spec fn masked(s: Seq<char>) -> Seq<char> {
    s.map_values(|c: char| mask_char(c))
}

/// Replaces every ASCII digit of `line` with `'*'`, so that broadcast console
/// output cannot leak coordinates, ports or addresses.
pub fn mask_line(line: &str) -> (r: String)
    ensures
        r@ == masked(line@),
{
    let n = line.unicode_len();
    let mut out = String::new();
    let mut i: usize = 0;
    while i < n
        invariant
            i <= n,
            n == line@.len(),
            out@ == masked(line@.take(i as int)),
        decreases n - i,
    {
        let c = line.get_char(i);
        let u = c as u32;
        if 48 <= u && u <= 57 {
            out.append("*");
            proof {
                reveal_strlit("*");
                assert(out@ =~= masked(line@.take(i as int)).push('*'));
            }
        } else {
            let piece = line.substring_char(i, i + 1);
            proof {
                assert(piece@ =~= seq![line@[i as int]]);
            }
            out.append(piece);
        }
        i = i + 1;
        proof {
            assert(out@ =~= masked(line@.take(i as int)));
        }
    }
    proof {
        assert(line@.take(n as int) =~= line@);
    }
    out
}

/// Every digit of a line is masked, every non-digit kept, and no digit
/// survives masking; masking a second time therefore changes nothing.
pub proof fn lemma_mask_properties(s: Seq<char>)
    ensures
        masked(s).len() == s.len(),
        forall|i: int| 0 <= i < s.len() && is_ascii_digit_char(s[i]) ==> masked(s)[i] == '*',
        forall|i: int| 0 <= i < s.len() && !is_ascii_digit_char(s[i]) ==> masked(s)[i] == s[i],
        forall|i: int| 0 <= i < masked(s).len() ==> !is_ascii_digit_char(masked(s)[i]),
        masked(masked(s)) == masked(s),
{
    assert(masked(masked(s)) =~= masked(s));
}

/// Encodes an operator command for the child's input stream: the command
/// text followed by a single newline.
pub fn encode_command(cmd: &str) -> (r: String)
    ensures
        r@ == cmd@ + seq!['\n'],
{
    let mut out = cmd.to_owned();
    out.append("\n");
    proof {
        reveal_strlit("\n");
        assert(out@ =~= cmd@ + seq!['\n']);
    }
    out
}

} // verus!
