//! The accelerator policy: one configuration switch deciding whether the
//! batch verifier's multiscalar multiplication runs on the CPU engine or on
//! an exclusively-locked hardware kernel.
//!
//! Exactly three values are recognized, case-insensitively: `auto`, `cpu`
//! and `gpu`. Anything else is an operator misconfiguration; parsing reports
//! it as `None` and the process around the library must treat it as fatal
//! rather than retry. The hardware kernel is sized to `ceil(log2(n))` for
//! `n` base points.

use vstd::prelude::*;
use vstd::string::StringSliceAdditionalSpecFns;

verus! {

/// The recognized values of the accelerator switch.
#[derive(Clone, Copy, Debug, PartialEq, Eq, Structural)]
pub enum AcceleratorPolicy {
    /// Let the library choose; today this is always the CPU engine.
    Auto,
    /// Always the CPU multiscalar engine.
    Cpu,
    /// Acquire the hardware multiexp kernel for each batch multiexp call.
    Gpu,
}

/// ASCII lower-casing of one byte; other bytes are untouched.
pub open spec fn ascii_lower(b: u8) -> u8 {
    if 65 <= b <= 90 {
        (b + 32) as u8
    } else {
        b
    }
}

/// Whether `s` equals the lowercase word `w` up to ASCII case.
pub open spec fn matches_ignore_ascii_case(s: Seq<u8>, w: Seq<u8>) -> bool {
    s.len() == w.len() && forall|i: int| 0 <= i < s.len() ==> ascii_lower(s[i]) == w[i]
}

/// The bytes of `auto`.
pub open spec fn auto_word() -> Seq<u8> {
    seq![97u8, 117u8, 116u8, 111u8]
}

/// The bytes of `cpu`.
pub open spec fn cpu_word() -> Seq<u8> {
    seq![99u8, 112u8, 117u8]
}

/// The bytes of `gpu`.
pub open spec fn gpu_word() -> Seq<u8> {
    seq![103u8, 112u8, 117u8]
}

/// ASCII lower-casing of one byte.
fn byte_lower(b: u8) -> (r: u8)
    ensures
        r == ascii_lower(b),
{
    if b >= 65 && b <= 90 {
        b + 32
    } else {
        b
    }
}

/// Parses the accelerator switch, case-insensitively. `None` stands for an
/// unrecognized value: a fatal configuration error for the caller, to be
/// detected once per verification session, never retried per call.
pub fn parse_accelerator_policy(s: &str) -> (r: Option<AcceleratorPolicy>)
    ensures
        r == Some(AcceleratorPolicy::Auto) <==> matches_ignore_ascii_case(
            s.spec_bytes(),
            auto_word(),
        ),
        r == Some(AcceleratorPolicy::Cpu) <==> matches_ignore_ascii_case(
            s.spec_bytes(),
            cpu_word(),
        ),
        r == Some(AcceleratorPolicy::Gpu) <==> matches_ignore_ascii_case(
            s.spec_bytes(),
            gpu_word(),
        ),
        r is None <==> !matches_ignore_ascii_case(s.spec_bytes(), auto_word())
            && !matches_ignore_ascii_case(s.spec_bytes(), cpu_word())
            && !matches_ignore_ascii_case(s.spec_bytes(), gpu_word()),
{
    let b = s.as_bytes();
    if b.len() == 4 {
        let hit = byte_lower(b[0]) == 97 && byte_lower(b[1]) == 117 && byte_lower(b[2]) == 116
            && byte_lower(b[3]) == 111;
        if hit {
            assert(matches_ignore_ascii_case(s.spec_bytes(), auto_word()));
            return Some(AcceleratorPolicy::Auto);
        }
        assert(!matches_ignore_ascii_case(s.spec_bytes(), auto_word())) by {
            if matches_ignore_ascii_case(s.spec_bytes(), auto_word()) {
                assert(ascii_lower(s.spec_bytes()[0]) == auto_word()[0]);
                assert(ascii_lower(s.spec_bytes()[1]) == auto_word()[1]);
                assert(ascii_lower(s.spec_bytes()[2]) == auto_word()[2]);
                assert(ascii_lower(s.spec_bytes()[3]) == auto_word()[3]);
            }
        }
        return None;
    }
    if b.len() == 3 {
        let l0 = byte_lower(b[0]);
        let l1 = byte_lower(b[1]);
        let l2 = byte_lower(b[2]);
        if l0 == 99 && l1 == 112 && l2 == 117 {
            assert(matches_ignore_ascii_case(s.spec_bytes(), cpu_word()));
            assert(!matches_ignore_ascii_case(s.spec_bytes(), gpu_word())) by {
                if matches_ignore_ascii_case(s.spec_bytes(), gpu_word()) {
                    assert(ascii_lower(s.spec_bytes()[0]) == gpu_word()[0]);
                }
            }
            return Some(AcceleratorPolicy::Cpu);
        }
        if l0 == 103 && l1 == 112 && l2 == 117 {
            assert(matches_ignore_ascii_case(s.spec_bytes(), gpu_word()));
            assert(!matches_ignore_ascii_case(s.spec_bytes(), cpu_word())) by {
                if matches_ignore_ascii_case(s.spec_bytes(), cpu_word()) {
                    assert(ascii_lower(s.spec_bytes()[0]) == cpu_word()[0]);
                }
            }
            return Some(AcceleratorPolicy::Gpu);
        }
        assert(!matches_ignore_ascii_case(s.spec_bytes(), cpu_word())) by {
            if matches_ignore_ascii_case(s.spec_bytes(), cpu_word()) {
                assert(ascii_lower(s.spec_bytes()[0]) == cpu_word()[0]);
                assert(ascii_lower(s.spec_bytes()[1]) == cpu_word()[1]);
                assert(ascii_lower(s.spec_bytes()[2]) == cpu_word()[2]);
            }
        }
        assert(!matches_ignore_ascii_case(s.spec_bytes(), gpu_word())) by {
            if matches_ignore_ascii_case(s.spec_bytes(), gpu_word()) {
                assert(ascii_lower(s.spec_bytes()[0]) == gpu_word()[0]);
                assert(ascii_lower(s.spec_bytes()[1]) == gpu_word()[1]);
                assert(ascii_lower(s.spec_bytes()[2]) == gpu_word()[2]);
            }
        }
        return None;
    }
    None
}

/// Two to the power `e`.
pub open spec fn pow2(e: nat) -> nat
    decreases e,
{
    if e == 0 {
        1
    } else {
        2 * pow2((e - 1) as nat)
    }
}

/// Whether `d` is the kernel size for `n` points: `ceil(log2(n))`, and `0`
/// for fewer than two points.
pub open spec fn is_kernel_size(n: int, d: int) -> bool {
    if n <= 1 {
        d == 0
    } else {
        d >= 1 && pow2(d as nat) >= n && pow2((d - 1) as nat) < n
    }
}

/// The hardware kernel size for `n` base points: `ceil(log2(n))` computed in
/// integer arithmetic.
pub fn ceil_log2(n: usize) -> (r: usize)
    ensures
        is_kernel_size(n as int, r as int),
{
    if n <= 1 {
        return 0;
    }
    let nn: u128 = n as u128;
    let mut r: usize = 0;
    let mut p: u128 = 1;
    while p < nn
        invariant
            nn == n,
            n >= 2,
            1 <= p,
            p < 2 * nn,
            (r as int) < p,
            p == pow2(r as nat),
            r == 0 || pow2((r - 1) as nat) < n,
        decreases 2 * nn - p,
    {
        p = p * 2;
        r = r + 1;
    }
    r
}

/// Chooses the multiexp backend for a batch verification: `None` is the CPU
/// multiscalar engine, `Some(d)` asks for the exclusively-locked hardware
/// kernel sized `d`. The `auto` and `cpu` policies always stay on the CPU
/// engine.
pub fn select_multiexp_backend(policy: AcceleratorPolicy, point_count: usize) -> (r: Option<
    usize,
>)
    ensures
        policy == AcceleratorPolicy::Auto || policy == AcceleratorPolicy::Cpu ==> r is None,
        policy == AcceleratorPolicy::Gpu ==> (r matches Some(d) && is_kernel_size(
            point_count as int,
            d as int,
        )),
{
    match policy {
        AcceleratorPolicy::Auto => None,
        AcceleratorPolicy::Cpu => None,
        AcceleratorPolicy::Gpu => Some(ceil_log2(point_count)),
    }
}

} // verus!
