use vstd::prelude::*;

verus! {

/// A byte the target-name policy accepts: an ASCII letter (`A`-`Z`, `a`-`z`),
/// a digit (`0`-`9`), `_` or `-`.
pub open spec fn valid_target_byte(b: u8) -> bool {
    (65 <= b && b <= 90) || (97 <= b && b <= 122) || (48 <= b && b <= 57) || b == 95 || b == 45
}

/// A target name is valid iff it is non-empty and every byte is from the
/// allowed class, i.e. iff it matches `[A-Za-z0-9_-]+` in full.
pub open spec fn valid_target(s: Seq<u8>) -> bool {
    s.len() >= 1 && forall|i: int| 0 <= i < s.len() ==> valid_target_byte(s[i])
}

/// Validates a target name against the allowed-character policy.
/// Pure: no side effects; accepts exactly the names matching `[A-Za-z0-9_-]+`.
pub fn validate_target(target: &[u8]) -> (r: bool)
    ensures
        r == valid_target(target@),
{
    if target.len() == 0 {
        return false;
    }
    let mut i: usize = 0;
    while i < target.len()
        invariant
            0 <= i <= target@.len(),
            forall|j: int| 0 <= j < i ==> valid_target_byte(target@[j]),
        decreases target@.len() - i,
    {
        let b = target[i];
        let ok = (65 <= b && b <= 90) || (97 <= b && b <= 122) || (48 <= b && b <= 57) || b == 95
            || b == 45;
        if !ok {
            return false;
        }
        i = i + 1;
    }
    true
}

} // verus!
