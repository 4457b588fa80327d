//! What synthetic input sends: the points of a gradual pointer move and the
//! scan codes of typed text. Sending them is left to the caller.
use vstd::prelude::*;

verus! {

/// `a / b` for `b > 0`, rounded toward zero as integer division in Rust is.
pub open spec fn div_toward_zero(a: int, b: int) -> int {
    if a >= 0 {
        a / b
    } else {
        -((-a) / b)
    }
}

/// Coordinate `i` of `steps` on the straight way from 0 to `target`.
pub open spec fn path_coord(target: int, i: int, steps: int) -> int {
    div_toward_zero(target * i, steps)
}

proof fn lemma_path_coord_bounded(target: int, i: int, steps: int)
    requires
        0 <= i <= steps,
        steps > 0,
    ensures
        target >= 0 ==> 0 <= path_coord(target, i, steps) <= target,
        target < 0 ==> target <= path_coord(target, i, steps) <= 0,
{
    let a = if target >= 0 { target } else { -target };
    assert(0 <= a * i <= a * steps) by (nonlinear_arith)
        requires 0 <= i <= steps, a >= 0;
    assert((a * i) / steps <= a) by (nonlinear_arith)
        requires 0 <= a * i <= a * steps, steps > 0, a >= 0;
    assert(0 <= (a * i) / steps) by (nonlinear_arith)
        requires 0 <= a * i, steps > 0;
    if target < 0 {
        assert(target * i == -(a * i)) by (nonlinear_arith)
            requires a == -target;
    }
}

/// Coordinate `i` of `steps`, computed without overflow.
fn coord_at(target: i32, i: usize, steps: usize) -> (r: i32)
    requires
        1 <= i <= steps,
    ensures
        r == path_coord(target as int, i as int, steps as int),
{
    proof {
        lemma_path_coord_bounded(target as int, i as int, steps as int);
    }
    let magnitude: u128 = if target >= 0 {
        target as u128
    } else {
        (-(target as i64)) as u128
    };
    assert(magnitude * (i as u128) <= 0x8000_0000u128 * 0xffff_ffff_ffff_ffffu128) by (nonlinear_arith)
        requires magnitude <= 0x8000_0000u128, i as u128 <= 0xffff_ffff_ffff_ffffu128;
    let q: u128 = magnitude * (i as u128) / (steps as u128);
    if target >= 0 {
        q as i32
    } else {
        proof {
            assert(target as int * i as int == -(magnitude as int * i as int)) by (nonlinear_arith)
                requires magnitude as int == -(target as int);
        }
        (-(q as i64)) as i32
    }
}

/// The points of a pointer move toward `(target_x, target_y)` in `steps`
/// equal strides: point `k` is the target scaled by `(k + 1) / steps`, each
/// coordinate rounded toward zero, so the last point is the target.
pub fn smooth_path(target_x: i32, target_y: i32, steps: usize) -> (r: Vec<(i32, i32)>)
    ensures
        r@.len() == steps,
        forall|k: int|
            0 <= k < steps ==> #[trigger] r@[k] == (
            path_coord(target_x as int, k + 1, steps as int) as i32,
            path_coord(target_y as int, k + 1, steps as int) as i32,
            ),
{
    let mut points: Vec<(i32, i32)> = Vec::new();
    let mut i: usize = 0;
    while i < steps
        invariant
            i <= steps,
            points@.len() == i,
            forall|k: int|
                0 <= k < i ==> #[trigger] points@[k] == (
                path_coord(target_x as int, k + 1, steps as int) as i32,
                path_coord(target_y as int, k + 1, steps as int) as i32,
                ),
        decreases steps - i,
    {
        let x = coord_at(target_x, i + 1, steps);
        let y = coord_at(target_y, i + 1, steps);
        points.push((x, y));
        i = i + 1;
    }
    points
}

pub open spec fn is_lowercase_letter(c: char) -> bool {
    'a' <= c && c <= 'z'
}

/// The scan code sent for a lowercase letter: `0x1E` for `a`, counting up.
pub open spec fn letter_scan_code(c: char) -> u16 {
    (c as int - 'a' as int + 0x1E) as u16
}

/// The scan codes of the lowercase letters of `text`, in order; every other
/// character is skipped.
pub open spec fn key_codes(text: Seq<char>) -> Seq<u16>
    decreases text.len(),
{
    if text.len() == 0 {
        Seq::empty()
    } else {
        let rest = key_codes(text.drop_last());
        if is_lowercase_letter(text.last()) {
            rest.push(letter_scan_code(text.last()))
        } else {
            rest
        }
    }
}

/// The scan codes that typing `text` presses and releases, one per
/// lowercase letter.
pub fn scan_codes(text: &[char]) -> (r: Vec<u16>)
    ensures
        r@ == key_codes(text@),
{
    let mut codes: Vec<u16> = Vec::new();
    let mut i: usize = 0;
    while i < text.len()
        invariant
            i <= text@.len(),
            codes@ == key_codes(text@.subrange(0, i as int)),
        decreases text@.len() - i,
    {
        let c = text[i];
        assert(text@.subrange(0, i + 1).drop_last() =~= text@.subrange(0, i as int));
        if 'a' <= c && c <= 'z' {
            codes.push((c as u32 - 'a' as u32 + 0x1E) as u16);
        }
        i = i + 1;
    }
    assert(text@.subrange(0, text@.len() as int) =~= text@);
    codes
}

} // verus!
