//! What holds of the comparison of window infos.

use vstd::prelude::*;

use crate::geometry::{Real, WindowInfo};
use crate::model::WindowModel;

verus! {

/// An info differs from itself exactly if it holds a NaN.
pub proof fn info_equals_itself_without_nan(info: WindowInfo)
    ensures
        info.equals(info) == !info.has_nan(),
{
}

/// Whether there is a change does not depend on the direction.
pub proof fn equal_infos_are_symmetric(a: WindowInfo, b: WindowInfo)
    ensures
        a.equals(b) == b.equals(a),
{
}

/// Two infos that a third one does not differ from do not differ from each other.
pub proof fn equal_infos_are_transitive(a: WindowInfo, b: WindowInfo, c: WindowInfo)
    requires
        a.equals(b),
        b.equals(c),
    ensures
        a.equals(c),
{
}

/// Taking an info over a second time changes nothing, and the info is no longer news unless it
/// holds a NaN.
pub proof fn update_is_idempotent(m: WindowModel, info: WindowInfo)
    ensures
        m.updated(info).updated(info) == m.updated(info),
        !info.has_nan() ==> m.updated(info).window_info.equals(info),
{
}

/// The exponent bits of a double.
pub open spec fn exponent(number: Real) -> int {
    (number.bits as int / 0x10_0000_0000_0000) % 0x800
}

/// The fraction bits of a double.
pub open spec fn fraction(number: Real) -> int {
    number.bits as int % 0x10_0000_0000_0000
}

/// A double is not a number exactly if its exponent is all ones and its fraction is not zero, and
/// it is zero exactly if both are zero, whatever its sign.
pub proof fn doubles_are_told_by_their_bits(number: Real)
    ensures
        number.is_nan() <==> exponent(number) == 0x7FF && fraction(number) != 0,
        number.is_zero() <==> exponent(number) == 0 && fraction(number) == 0,
        number.is_zero() <==> number.bits == 0 || number.bits == 0x8000_0000_0000_0000,
{
}

/// Two doubles compare equal exactly if neither is a NaN and they have the same bits, or both are
/// zeros.
pub proof fn doubles_compare_by_value(a: Real, b: Real)
    ensures
        a.equals(b) <==> {
            &&& !(exponent(a) == 0x7FF && fraction(a) != 0)
            &&& !(exponent(b) == 0x7FF && fraction(b) != 0)
            &&& a.bits == b.bits || (a.bits % 0x8000_0000_0000_0000 == 0 && b.bits
                % 0x8000_0000_0000_0000 == 0)
        },
{
    doubles_are_told_by_their_bits(a);
    doubles_are_told_by_their_bits(b);
}

/// Two infos are equal exactly if each of their parts is: none of the five can differ unnoticed.
pub proof fn every_part_of_an_info_counts(a: WindowInfo, b: WindowInfo)
    ensures
        a.equals(b) <==> {
            &&& a.physical_size.width == b.physical_size.width
            &&& a.physical_size.height == b.physical_size.height
            &&& a.logical_size.width.equals(b.logical_size.width)
            &&& a.logical_size.height.equals(b.logical_size.height)
            &&& a.scale.equals(b.scale)
        },
        a.has_nan() <==> {
            ||| a.logical_size.width.is_nan()
            ||| a.logical_size.height.is_nan()
            ||| a.scale.is_nan()
        },
{
}

/// An info that is news is taken over whole, one that is none not at all, and nothing else about
/// the window changes.
pub proof fn news_is_taken_over(m: WindowModel, info: WindowInfo)
    ensures
        m.window_info.equals(info) ==> m.updated(info) == m,
        !m.window_info.equals(info) ==> m.updated(info) == (WindowModel { window_info: info, ..m }),
{
}

} // verus!
