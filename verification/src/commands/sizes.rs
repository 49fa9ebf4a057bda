use crate::text::{decimal, decimal_spec};
use vstd::prelude::*;
use vstd::string::*;

verus! {

/// What a scan found at a path, as far as sizes go.
#[derive(Debug)]
pub enum FsNode {
    /// A regular file of `len` bytes.
    File { len: u64 },
    /// A directory with the children that could be listed; one that could
    /// not be listed at all has none.
    Directory { children: Vec<FsNode> },
    /// Anything else, and anything that could not be examined.
    Other,
}

/// A byte count cut off at the largest `u64`.
pub open spec fn saturate(n: nat) -> u64 {
    if n > u64::MAX {
        u64::MAX
    } else {
        n as u64
    }
}

/// The bytes below a node: a file's length, and for a directory the sum over
/// all that it holds, however deep.
pub open spec fn size_spec(node: FsNode) -> nat
    decreases node, 0nat,
{
    match node {
        FsNode::File { len } => len as nat,
        FsNode::Directory { children } => sizes_sum(children@, children@.len()),
        FsNode::Other => 0,
    }
}

/// The bytes below the first `n` of `nodes`.
pub open spec fn sizes_sum(nodes: Seq<FsNode>, n: nat) -> nat
    decreases nodes, n,
{
    if n == 0 || n > nodes.len() {
        0
    } else {
        sizes_sum(nodes, (n - 1) as nat) + size_spec(nodes[n - 1])
    }
}

/// Adding with a cut-off loses nothing that the cut-off sum still holds.
pub proof fn lemma_saturating_add(a: nat, b: nat)
    ensures
        saturate(a + b) == saturate(saturate(a) as nat + saturate(b) as nat),
{
}

/// The size of a file, or of a directory with all below it, cut off at the
/// largest `u64`.
pub fn dir_or_file_size(node: &FsNode) -> (r: u64)
    ensures
        r == saturate(size_spec(*node)),
    decreases node,
{
    match node {
        FsNode::File { len } => *len,
        FsNode::Directory { children } => {
            let mut total: u64 = 0;
            let mut i: usize = 0;
            while i < children.len()
                invariant
                    i <= children.len(),
                    *node == (FsNode::Directory { children: *children }),
                    total == saturate(sizes_sum(children@, i as nat)),
                decreases children.len() - i,
            {
                proof {
                    assert(decreases_to!(*node => node->children));
                }
                let below: u64 = dir_or_file_size(&children[i]);
                proof {
                    lemma_saturating_add(
                        sizes_sum(children@, i as nat),
                        size_spec(children@[i as int]),
                    );
                }
                total = total.saturating_add(below);
                i += 1;
            }
            total
        },
        FsNode::Other => 0,
    }
}

/// How many times 1024 goes into the unit that `bytes` is shown in: the
/// largest unit that leaves a value of at least one, petabytes at most.
pub open spec fn unit_index(bytes: nat) -> nat {
    if bytes < 1024 {
        0
    } else if bytes < 1024 * 1024 {
        1
    } else if bytes < 1024 * 1024 * 1024 {
        2
    } else if bytes < 1024 * 1024 * 1024 * 1024 {
        3
    } else if bytes < 1024 * 1024 * 1024 * 1024 * 1024 {
        4
    } else {
        5
    }
}

/// The bytes in one unit: 1024 to the power `index`.
pub open spec fn unit_size(index: nat) -> nat
    decreases index,
{
    if index == 0 {
        1
    } else {
        1024 * unit_size((index - 1) as nat)
    }
}

/// The name of a unit.
pub open spec fn unit_name(index: nat) -> Seq<char> {
    if index == 0 {
        "B"@
    } else if index == 1 {
        "KB"@
    } else if index == 2 {
        "MB"@
    } else if index == 3 {
        "GB"@
    } else if index == 4 {
        "TB"@
    } else {
        "PB"@
    }
}

/// `n / d` rounded to the nearest whole number; a value exactly halfway
/// between two goes to the even one.
pub open spec fn round_half_even(n: nat, d: nat) -> nat {
    let whole = n / d;
    let rest = n % d;
    if 2 * rest > d || (2 * rest == d && whole % 2 == 1) {
        whole + 1
    } else {
        whole
    }
}

/// The spacing of the numbers with 53 significant binary digits around
/// `bytes`: 1 below 2^53, then doubling with every further binary digit.
pub open spec fn granule(bytes: nat) -> nat {
    if bytes < 0x20_0000_0000_0000 {
        1
    } else if bytes < 0x40_0000_0000_0000 {
        2
    } else if bytes < 0x80_0000_0000_0000 {
        4
    } else if bytes < 0x100_0000_0000_0000 {
        8
    } else if bytes < 0x200_0000_0000_0000 {
        16
    } else if bytes < 0x400_0000_0000_0000 {
        32
    } else if bytes < 0x800_0000_0000_0000 {
        64
    } else if bytes < 0x1000_0000_0000_0000 {
        128
    } else if bytes < 0x2000_0000_0000_0000 {
        256
    } else if bytes < 0x4000_0000_0000_0000 {
        512
    } else if bytes < 0x8000_0000_0000_0000 {
        1024
    } else {
        2048
    }
}

/// A byte count as it is scaled: kept exactly up to 2^53, and beyond that
/// taken to the nearest number with 53 significant binary digits, halves to
/// even.
pub open spec fn scaled_count(bytes: nat) -> nat {
    round_half_even(bytes, granule(bytes)) * granule(bytes)
}

/// A byte count in tenths of `unit`, rounded to the nearest tenth, halves to
/// even.
pub open spec fn round_tenths(bytes: nat, unit: nat) -> nat {
    round_half_even(scaled_count(bytes) * 10, unit)
}

/// A byte count for people: a whole number of `B` below 1024, else one
/// decimal place in the largest binary unit that fits.
pub open spec fn human_bytes_spec(bytes: nat) -> Seq<char> {
    if bytes < 1024 {
        decimal_spec(bytes) + seq![' ', 'B']
    } else {
        let index = unit_index(bytes);
        let tenths = round_tenths(bytes, unit_size(index));
        decimal_spec(tenths / 10) + seq!['.'] + decimal_spec(tenths % 10) + seq![' '] + unit_name(
            index,
        )
    }
}

/// Divides and rounds to the nearest whole number, halves to even.
fn divide_half_even(n: u128, d: u128) -> (r: u128)
    requires
        d > 0,
        n < 0x1_0000_0000_0000_0000_0000,
    ensures
        r == round_half_even(n as nat, d as nat),
        r <= n + 1,
{
    let whole: u128 = n / d;
    let rest: u128 = n % d;
    proof {
        assert(n / d <= n && n % d <= n) by (nonlinear_arith)
            requires
                d > 0,
                n >= 0,
        ;
    }
    if 2 * rest > d || (2 * rest == d && whole % 2 == 1) {
        whole + 1
    } else {
        whole
    }
}

/// The spacing of the numbers with 53 significant binary digits around
/// `bytes`.
fn granule_of(bytes: u64) -> (r: u128)
    ensures
        r == granule(bytes as nat),
{
    if bytes < 0x20_0000_0000_0000 {
        1
    } else if bytes < 0x40_0000_0000_0000 {
        2
    } else if bytes < 0x80_0000_0000_0000 {
        4
    } else if bytes < 0x100_0000_0000_0000 {
        8
    } else if bytes < 0x200_0000_0000_0000 {
        16
    } else if bytes < 0x400_0000_0000_0000 {
        32
    } else if bytes < 0x800_0000_0000_0000 {
        64
    } else if bytes < 0x1000_0000_0000_0000 {
        128
    } else if bytes < 0x2000_0000_0000_0000 {
        256
    } else if bytes < 0x4000_0000_0000_0000 {
        512
    } else if bytes < 0x8000_0000_0000_0000 {
        1024
    } else {
        2048
    }
}

/// Scales `bytes` to tenths of `unit`.
fn tenths_of(bytes: u64, unit: u128) -> (r: u128)
    requires
        unit > 0,
    ensures
        r == round_tenths(bytes as nat, unit as nat),
{
    let step: u128 = granule_of(bytes);
    let kept: u128 = divide_half_even(bytes as u128, step) * step;
    divide_half_even(kept * 10, unit)
}

/// Formats a byte count for people.
pub fn human_bytes(bytes: u64) -> (r: String)
    ensures
        r@ == human_bytes_spec(bytes as nat),
{
    proof {
        reveal_strlit(" B");
        reveal_strlit(".");
        reveal_strlit(" ");
        reveal_with_fuel(unit_size, 6);
    }
    if bytes < 1024 {
        let mut out = decimal(bytes as u128);
        out.append(" B");
        return out;
    }
    let unit: u128;
    let name: &str;
    if bytes < 1024 * 1024 {
        unit = 1024;
        name = "KB";
    } else if bytes < 1024 * 1024 * 1024 {
        unit = 1024 * 1024;
        name = "MB";
    } else if bytes < 1024 * 1024 * 1024 * 1024 {
        unit = 1024 * 1024 * 1024;
        name = "GB";
    } else if bytes < 1024 * 1024 * 1024 * 1024 * 1024 {
        unit = 1024 * 1024 * 1024 * 1024;
        name = "TB";
    } else {
        unit = 1024 * 1024 * 1024 * 1024 * 1024;
        name = "PB";
    }
    let tenths: u128 = tenths_of(bytes, unit);
    let mut out = decimal(tenths / 10);
    out.append(".");
    out.append(decimal(tenths % 10).as_str());
    out.append(" ");
    out.append(name);
    proof {
        assert(unit == unit_size(unit_index(bytes as nat)));
    }
    out
}

} // verus!
