//! Detected cursor positions, written as a snippet of actions for a configuration.

use crate::decimal::{append_signed, append_unsigned, decimal, digits};
use vstd::prelude::*;
use vstd::string::StringExecFns;

verus! {

/// The two actions for the position with the number `number`: a move and click at the
/// place itself, then the same relative to the first position that was detected.
pub open spec fn entry_text(number: nat, position: [i32; 4]) -> Seq<char> {
    "# position "@ + digits(number) + "\n[[action]]\ntype = \"MOVECLICK\"\nx = "@ + decimal(
        position[0] as int,
    ) + "\ny = "@ + decimal(position[1] as int)
        + "\n\n[[action]]\ntype = \"MOVECLICK\"\nx = "@ + decimal(position[2] as int) + "\ny = "@
        + decimal(position[3] as int) + "\nrelative = true\n"@
}

/// The entries of the first `n` positions, numbered from 1, with an empty line between
/// one entry and the next.
pub open spec fn snippet_text(positions: Seq<[i32; 4]>, n: nat) -> Seq<char>
    decreases n,
{
    if n == 0 {
        Seq::empty()
    } else if n == 1 {
        entry_text(1, positions[0])
    } else {
        snippet_text(positions, (n - 1) as nat) + "\n"@ + entry_text(n, positions[n - 1])
    }
}

/// Appends the entry of one position.
fn append_entry(out: &mut String, number: u64, position: &[i32; 4])
    ensures
        final(out)@ == old(out)@ + entry_text(number as nat, *position),
{
    out.append("# position ");
    append_unsigned(out, number);
    out.append("\n[[action]]\ntype = \"MOVECLICK\"\nx = ");
    append_signed(out, position[0] as i64);
    out.append("\ny = ");
    append_signed(out, position[1] as i64);
    out.append("\n\n[[action]]\ntype = \"MOVECLICK\"\nx = ");
    append_signed(out, position[2] as i64);
    out.append("\ny = ");
    append_signed(out, position[3] as i64);
    out.append("\nrelative = true\n");
}

/// Writes the snippet for the positions in `pos_arr`, each as x, y and the offsets of x
/// and y from the first position.
pub fn action_snippet(pos_arr: &Vec<[i32; 4]>) -> (text: String)
    ensures
        text@ == snippet_text(pos_arr@, pos_arr.len() as nat),
{
    let mut text = String::new();
    let mut i: usize = 0;
    while i < pos_arr.len()
        invariant
            i <= pos_arr.len(),
            text@ == snippet_text(pos_arr@, i as nat),
        decreases pos_arr.len() - i,
    {
        if i > 0 {
            text.append("\n");
        }
        append_entry(&mut text, i as u64 + 1, &pos_arr[i]);
        i = i + 1;
    }
    text
}

} // verus!
