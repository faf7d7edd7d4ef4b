//! Display-text helpers that understand ANSI colour codes: stripping the
//! codes out, and padding a coloured text by its visible width.

use vstd::prelude::*;
use vstd::string::{StrSliceExecFns, StringExecFns};

verus! {

/// A character that may stand between `ESC [` and the final `m` of an ANSI
/// colour code: a digit or `;`.
pub open spec fn csi_param_char(c: char) -> bool {
    let u = c as u32;
    (0x30 <= u && u <= 0x39) || u == 0x3b
}

/// The first index at or after `i` holding no parameter character, or the
/// text's length.
pub open spec fn csi_run_end(s: Seq<char>, i: int) -> int
    decreases s.len() - i,
{
    if i < 0 || i >= s.len() {
        s.len() as int
    } else if csi_param_char(s[i]) {
        csi_run_end(s, i + 1)
    } else {
        i
    }
}

/// An ANSI colour code — `ESC [`, parameter characters, `m` — stands at the
/// start of `s`.
pub open spec fn ansi_code_at_start(s: Seq<char>) -> bool {
    s.len() >= 2 && s[0] == '\u{1b}' && s[1] == '[' && csi_run_end(s, 2) < s.len() && s[csi_run_end(
        s,
        2,
    )] == 'm'
}

/// The length of the colour code at the start of `s`.
pub open spec fn ansi_code_len(s: Seq<char>) -> int {
    csi_run_end(s, 2) + 1
}

proof fn lemma_csi_run_end_bounds(s: Seq<char>, i: int)
    requires
        0 <= i <= s.len(),
    ensures
        i <= csi_run_end(s, i) <= s.len(),
    decreases s.len() - i,
{
    if i < s.len() && csi_param_char(s[i]) {
        lemma_csi_run_end_bounds(s, i + 1);
    }
}

/// `s` with every ANSI colour code removed, scanning left to right.
pub open spec fn strip_ansi_spec(s: Seq<char>) -> Seq<char>
    decreases s.len(),
    via strip_ansi_spec_decreases
{
    if s.len() == 0 {
        Seq::empty()
    } else if ansi_code_at_start(s) {
        strip_ansi_spec(s.skip(ansi_code_len(s)))
    } else {
        seq![s[0]] + strip_ansi_spec(s.skip(1))
    }
}

#[via_fn]
proof fn strip_ansi_spec_decreases(s: Seq<char>) {
    if s.len() > 0 && ansi_code_at_start(s) {
        lemma_csi_run_end_bounds(s, 2);
    }
}

proof fn lemma_csi_run_end_at(s: Seq<char>, i: int, k: int)
    requires
        0 <= i <= k <= s.len(),
        forall|x: int| i <= x < k ==> csi_param_char(#[trigger] s[x]),
        k < s.len() ==> !csi_param_char(s[k]),
    ensures
        csi_run_end(s, i) == k,
    decreases k - i,
{
    if i < k {
        lemma_csi_run_end_at(s, i + 1, k);
    }
}

/// One scan step where no colour code starts at `i`.
proof fn lemma_strip_step_copy(s: Seq<char>, i: int)
    requires
        0 <= i < s.len(),
        !ansi_code_at_start(s.skip(i)),
    ensures
        strip_ansi_spec(s.skip(i)) == seq![s[i]] + strip_ansi_spec(s.skip(i + 1)),
{
    assert(s.skip(i).skip(1) =~= s.skip(i + 1));
    assert(s.skip(i)[0] == s[i]);
}

/// One scan step where a colour code of length `l` starts at `i`.
proof fn lemma_strip_step_code(s: Seq<char>, i: int, l: int)
    requires
        0 <= i < s.len(),
        ansi_code_at_start(s.skip(i)),
        l == ansi_code_len(s.skip(i)),
        i + l <= s.len(),
    ensures
        strip_ansi_spec(s.skip(i)) == strip_ansi_spec(s.skip(i + l)),
{
    lemma_csi_run_end_bounds(s.skip(i), 2);
    assert(s.skip(i).skip(l) =~= s.skip(i + l));
}

/// Remove every ANSI colour code from `s`.
pub fn strip_ansi(s: &str) -> (r: String)
    ensures
        r@ == strip_ansi_spec(s@),
{
    let n = s.unicode_len();
    let mut out = String::new();
    let mut i: usize = 0;
    proof {
        assert(s@.skip(0) =~= s@);
    }
    while i < n
        invariant
            0 <= i <= n,
            n == s@.len(),
            strip_ansi_spec(s@) == out@ + strip_ansi_spec(s@.skip(i as int)),
        decreases n - i,
    {
        let mut code_end: usize = 0;
        let mut is_code = false;
        if s.get_char(i) == '\u{1b}' && i + 1 < n && s.get_char(i + 1) == '[' {
            let mut j: usize = i + 2;
            loop
                invariant
                    i + 2 <= j <= n,
                    n == s@.len(),
                    forall|x: int| i + 2 <= x < j ==> csi_param_char(#[trigger] s@[x]),
                ensures
                    i + 2 <= j <= n,
                    forall|x: int| i + 2 <= x < j ==> csi_param_char(#[trigger] s@[x]),
                    j < n ==> !csi_param_char(s@[j as int]),
                decreases n - j,
            {
                if j >= n {
                    break;
                }
                let c = s.get_char(j);
                let u = c as u32;
                if !((0x30 <= u && u <= 0x39) || u == 0x3b) {
                    break;
                }
                j += 1;
            }
            proof {
                lemma_csi_run_end_at(s@.skip(i as int), 2, j - i);
            }
            if j < n && s.get_char(j) == 'm' {
                is_code = true;
                code_end = j + 1;
            }
        }
        if is_code {
            proof {
                lemma_strip_step_code(s@, i as int, code_end - i);
            }
            i = code_end;
        } else {
            let piece = s.substring_char(i, i + 1);
            let ghost old_out = out@;
            out.append(piece);
            proof {
                lemma_strip_step_copy(s@, i as int);
                assert(piece@ =~= seq![s@[i as int]]);
                assert(old_out + (seq![s@[i as int]] + strip_ansi_spec(s@.skip(i + 1))) =~= out@
                    + strip_ansi_spec(s@.skip(i + 1)));
            }
            i += 1;
        }
    }
    proof {
        assert(strip_ansi_spec(s@.skip(n as int)) =~= Seq::<char>::empty());
        assert(out@ + Seq::<char>::empty() =~= out@);
    }
    out
}

/// `n` spaces.
pub open spec fn space_seq(n: nat) -> Seq<char> {
    Seq::new(n, |i: int| ' ')
}

/// Pad `colored` on the right with spaces until its visible width — the
/// character count with ANSI colour codes stripped — reaches `width`.
pub fn pad_right_ansi_aware(colored: &str, width: usize) -> (r: String)
    ensures
        r@ == colored@ + space_seq(
            if width > strip_ansi_spec(colored@).len() {
                (width - strip_ansi_spec(colored@).len()) as nat
            } else {
                0
            },
        ),
{
    let raw = strip_ansi(colored);
    let char_count = raw.as_str().unicode_len();
    let padding: usize = if width > char_count {
        width - char_count
    } else {
        0
    };
    let mut out = String::new();
    out.append(colored);
    let mut k: usize = 0;
    proof {
        reveal_strlit(" ");
        assert(out@ =~= colored@ + space_seq(0));
    }
    while k < padding
        invariant
            0 <= k <= padding,
            out@ == colored@ + space_seq(k as nat),
        decreases padding - k,
    {
        out.append(" ");
        proof {
            reveal_strlit(" ");
            assert(colored@ + space_seq(k as nat) + " "@ =~= colored@ + space_seq((k + 1) as nat));
        }
        k += 1;
    }
    out
}

} // verus!
