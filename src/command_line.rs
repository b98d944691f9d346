//! The command line and the window title it implies.

use vstd::prelude::*;
use vstd::string::*;

verus! {

/// What the command line selects.
#[derive(Clone, Copy, Debug, PartialEq, Eq, Structural)]
pub struct SampleCommandLine {
    /// Render on the Windows Advanced Rasterization Platform, the software
    /// adapter, instead of a hardware one.
    pub use_warp_device: bool,
}

/// The code of `c` with ASCII upper-case letters made lower-case.
pub open spec fn ascii_fold(c: char) -> u32 {
    if 'A' <= c <= 'Z' {
        (c as u32 + 32) as u32
    } else {
        c as u32
    }
}

/// Whether `a` and `b` are equal once ASCII letters are folded to one case.
pub open spec fn eq_ignore_ascii_case(a: Seq<char>, b: Seq<char>) -> bool {
    &&& a.len() == b.len()
    &&& forall|i: int| 0 <= i < a.len() ==> ascii_fold(#[trigger] a[i]) == ascii_fold(b[i])
}

/// `-warp` or `/warp`, in any case.
pub open spec fn is_warp_flag(arg: Seq<char>) -> bool {
    eq_ignore_ascii_case(arg, "-warp"@) || eq_ignore_ascii_case(arg, "/warp"@)
}

fn fold(c: char) -> (r: u32)
    ensures
        r == ascii_fold(c),
{
    if 'A' <= c && c <= 'Z' {
        c as u32 + 32
    } else {
        c as u32
    }
}

/// Whether the two strings are equal once ASCII letters are folded to one case.
pub fn ascii_eq_ignore_case(a: &str, b: &str) -> (r: bool)
    ensures
        r == eq_ignore_ascii_case(a@, b@),
{
    let n = a.unicode_len();
    if n != b.unicode_len() {
        return false;
    }
    let mut i: usize = 0;
    while i < n
        invariant
            n == a@.len() == b@.len(),
            i <= n,
            forall|j: int| 0 <= j < i ==> ascii_fold(#[trigger] a@[j]) == ascii_fold(b@[j]),
        decreases n - i,
    {
        if fold(a.get_char(i)) != fold(b.get_char(i)) {
            return false;
        }
        i = i + 1;
    }
    true
}

impl SampleCommandLine {
    /// Reads the process arguments: warp is selected when any of them is `-warp`
    /// or `/warp`, in any case.
    pub fn from_args(args: &Vec<String>) -> (r: SampleCommandLine)
        ensures
            r.use_warp_device == exists|i: int| 0 <= i < args@.len() && is_warp_flag(#[trigger] args@[i]@),
    {
        let mut use_warp_device = false;
        let mut i: usize = 0;
        while i < args.len()
            invariant
                i <= args@.len(),
                use_warp_device == exists|j: int| 0 <= j < i && is_warp_flag(#[trigger] args@[j]@),
            decreases args@.len() - i,
        {
            let arg = args[i].as_str();
            if ascii_eq_ignore_case(arg, "-warp") || ascii_eq_ignore_case(arg, "/warp") {
                use_warp_device = true;
            }
            i = i + 1;
        }
        SampleCommandLine { use_warp_device }
    }
}

/// The window title: `base`, followed by ` (WARP)` when rendering on the warp
/// adapter.
pub fn window_title(base: &str, command_line: &SampleCommandLine) -> (r: String)
    ensures
        r@ == (if command_line.use_warp_device {
            base@ + " (WARP)"@
        } else {
            base@
        }),
{
    let mut title = String::from_str(base);
    if command_line.use_warp_device {
        title.append(" (WARP)");
    }
    title
}

} // verus!
