use vstd::prelude::*;
use crate::text::push_char;

verus! {

/// Whether permission bit `i` (0 is owner read, 8 is others execute) is set.
pub open spec fn perm_bit(mode: u32, i: int) -> bool {
    (mode & (256u32 >> (i as u32))) != 0
}

/// The letter shown for permission bit `i` when it is set.
pub open spec fn perm_letter(i: int) -> char {
    if i % 3 == 0 {
        'r'
    } else if i % 3 == 1 {
        'w'
    } else {
        'x'
    }
}

/// The `rwxrwxrwx` view of the low nine bits of `mode`, with `-` for a
/// cleared bit.
pub fn format_permissions(mode: u32) -> (r: String)
    ensures
        r@.len() == 9,
        forall|i: int|
            0 <= i < 9 ==> #[trigger] r@[i] == if perm_bit(mode, i) {
                perm_letter(i)
            } else {
                '-'
            },
{
    let mut r = String::new();
    let mut i: u32 = 0;
    while i < 9
        invariant
            i <= 9,
            r@.len() == i,
            forall|j: int|
                0 <= j < i ==> #[trigger] r@[j] == if perm_bit(mode, j) {
                    perm_letter(j)
                } else {
                    '-'
                },
        decreases 9 - i,
    {
        let letter = if i % 3 == 0 {
            'r'
        } else if i % 3 == 1 {
            'w'
        } else {
            'x'
        };
        let c = if mode & (256u32 >> i) != 0 {
            letter
        } else {
            '-'
        };
        push_char(&mut r, c);
        i = i + 1;
    }
    r
}

} // verus!
