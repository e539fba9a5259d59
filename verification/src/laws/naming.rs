//! What holds of the names of window classes.

use vstd::prelude::*;

use crate::class::{class_name, clock_text, guid_text, node_text, Guid};
use crate::laws::encoding::{code_points, codes, wide_text_is_the_text_and_a_zero};
use crate::text::{char_units, hex, hex_byte, hex_digit, units, wide};

verus! {

/// Each character is a hexadecimal digit.
spec fn all_digits(text: Seq<char>) -> bool {
    forall|i: int| 0 <= i < text.len() ==> #[trigger] is_digit(text[i])
}

spec fn is_digit(c: char) -> bool {
    exists|d: int| 0 <= d < 16 && c == #[trigger] hex_digit(d)
}

proof fn hex_is_digits(n: nat)
    ensures
        all_digits(hex(n)),
        hex(n).len() > 0,
    decreases n,
{
    if n < 16 {
        assert forall|i: int| 0 <= i < hex(n).len() implies #[trigger] is_digit(hex(n)[i]) by {
            assert(hex(n)[i] == hex_digit(n as int));
        }
    } else {
        hex_is_digits(n / 16);
        assert forall|i: int| 0 <= i < hex(n).len() implies #[trigger] is_digit(hex(n)[i]) by {
            if i < hex(n / 16).len() {
                assert(hex(n)[i] == hex(n / 16)[i]);
                assert(is_digit(hex(n / 16)[i]));
            } else {
                assert(hex(n)[i] == hex_digit((n % 16) as int));
            }
        }
    }
}

/// Different numbers are written differently.
pub proof fn hex_is_injective(a: nat, b: nat)
    requires
        hex(a) == hex(b),
    ensures
        a == b,
    decreases a,
{
    hex_is_digits(a / 16);
    hex_is_digits(b / 16);
    assert(hex(a).last() == hex_digit((a % 16) as int));
    assert(hex(b).last() == hex_digit((b % 16) as int));
    assert(a % 16 == b % 16);
    if a >= 16 && b >= 16 {
        assert(hex(a).drop_last() == hex(a / 16));
        assert(hex(b).drop_last() == hex(b / 16));
        hex_is_injective(a / 16, b / 16);
    }
}

/// A text in which every character is a digit or one of the two others in an identifier.
spec fn is_plain(text: Seq<char>) -> bool {
    forall|i: int| 0 <= i < text.len() ==> (#[trigger] text[i] as int) < 0x80
}

proof fn digits_are_plain(text: Seq<char>)
    requires
        all_digits(text),
    ensures
        is_plain(text),
        !text.contains('-'),
{
    assert forall|i: int| 0 <= i < text.len() implies (#[trigger] text[i] as int) < 0x80 && text[i]
        != '-' by {
        assert(is_digit(text[i]));
    }
}

proof fn digits_concatenate(a: Seq<char>, b: Seq<char>)
    requires
        all_digits(a),
        all_digits(b),
    ensures
        all_digits(a + b),
{
    assert forall|i: int| 0 <= i < (a + b).len() implies #[trigger] is_digit((a + b)[i]) by {
        if i < a.len() {
            assert(is_digit(a[i]));
        } else {
            assert(is_digit(b[i - a.len()]));
        }
    }
}

/// What comes before the first hyphen and what comes after it are determined by the whole.
proof fn splits_at_hyphen(a: Seq<char>, r: Seq<char>, b: Seq<char>, s: Seq<char>)
    requires
        a + seq!['-'] + r == b + seq!['-'] + s,
        !a.contains('-'),
        !b.contains('-'),
    ensures
        a == b,
        r == s,
{
    let whole = a + seq!['-'] + r;
    assert(whole[a.len() as int] == '-');
    assert((b + seq!['-'] + s)[b.len() as int] == '-');
    if a.len() < b.len() {
        assert(b[a.len() as int] == '-');
    } else if b.len() < a.len() {
        assert(a[b.len() as int] == '-');
    }
    assert(a == whole.take(a.len() as int));
    assert(b == (b + seq!['-'] + s).take(b.len() as int));
    assert(r == whole.skip(a.len() as int + 1));
    assert(s == (b + seq!['-'] + s).skip(b.len() as int + 1));
}

proof fn plain_units(text: Seq<char>)
    requires
        is_plain(text),
    ensures
        units(text).len() == text.len(),
        forall|i: int| 0 <= i < text.len() ==> #[trigger] units(text)[i] == (text[i] as int) as u16,
    decreases text.len(),
{
    if text.len() > 0 {
        let rest = text.drop_last();
        assert(is_plain(rest)) by {
            assert forall|i: int| 0 <= i < rest.len() implies (#[trigger] rest[i] as int) < 0x80 by {
                assert(rest[i] == text[i]);
            }
        }
        plain_units(rest);
        assert((text[text.len() - 1] as int) < 0x80);
        assert(char_units(text.last()).len() == 1);
        assert forall|i: int| 0 <= i < text.len() implies #[trigger] units(text)[i]
            == (text[i] as int) as u16 by {
            if i < rest.len() {
                assert(units(text)[i] == units(rest)[i]);
                assert(rest[i] == text[i]);
            }
        }
    }
}

proof fn plain_characters_are_kept_apart(c: char, d: char)
    requires
        (c as int) < 0x80,
        (d as int) < 0x80,
        (c as int) as u16 == (d as int) as u16,
    ensures
        c == d,
{
}

proof fn plain_texts_are_kept_apart(a: Seq<char>, b: Seq<char>)
    requires
        is_plain(a),
        is_plain(b),
        wide(a) == wide(b),
    ensures
        a == b,
{
    plain_units(a);
    plain_units(b);
    assert(units(a) == wide(a).drop_last());
    assert(units(b) == wide(b).drop_last());
    assert(units(a) == units(b));
    assert(a.len() == b.len());
    assert forall|i: int| 0 <= i < a.len() implies a[i] == b[i] by {
        assert(units(a)[i] == (a[i] as int) as u16);
        assert(units(b)[i] == (b[i] as int) as u16);
        assert((a[i] as int) < 0x80);
        assert((b[i] as int) < 0x80);
        plain_characters_are_kept_apart(a[i], b[i]);
    }
    assert(a == b);
}

proof fn hex_byte_is_digits(b: u8)
    ensures
        all_digits(hex_byte(b)),
{
    assert forall|i: int| 0 <= i < hex_byte(b).len() implies #[trigger] is_digit(hex_byte(b)[i]) by {
        assert(hex_byte(b)[0] == hex_digit(b as int / 16));
        assert(hex_byte(b)[1] == hex_digit(b as int % 16));
    }
}

proof fn hex_byte_is_injective(a: u8, b: u8)
    requires
        hex_byte(a) == hex_byte(b),
    ensures
        a == b,
{
    assert(hex_byte(a)[0] == hex_byte(b)[0]);
    assert(hex_byte(a)[1] == hex_byte(b)[1]);
    assert(a as int / 16 == b as int / 16);
    assert(a as int % 16 == b as int % 16);
}

/// A byte at the end, and what comes before it, are determined by the whole.
proof fn last_byte_splits_off(first: Seq<char>, a: u8, second: Seq<char>, b: u8)
    requires
        first + hex_byte(a) == second + hex_byte(b),
    ensures
        first == second,
        a == b,
{
    let one = first + hex_byte(a);
    let two = second + hex_byte(b);
    assert(one.len() == two.len());
    assert(first == one.take(first.len() as int));
    assert(second == two.take(second.len() as int));
    assert(hex_byte(a) == one.skip(first.len() as int));
    assert(hex_byte(b) == two.skip(second.len() as int));
    hex_byte_is_injective(a, b);
}

/// The digits of the last part determine its bytes.
proof fn bytes_are_kept_apart(a: Guid, b: Guid)
    requires
        clock_text(a) == clock_text(b),
        node_text(a) == node_text(b),
    ensures
        a.data4@ == b.data4@,
{
    let x = a.data4;
    let y = b.data4;
    last_byte_splits_off(hex_byte(x[0]), x[1], hex_byte(y[0]), y[1]);
    hex_byte_is_injective(x[0], y[0]);
    let x3 = hex_byte(x[2]) + hex_byte(x[3]);
    let y3 = hex_byte(y[2]) + hex_byte(y[3]);
    let x4 = x3 + hex_byte(x[4]);
    let y4 = y3 + hex_byte(y[4]);
    let x5 = x4 + hex_byte(x[5]);
    let y5 = y4 + hex_byte(y[5]);
    let x6 = x5 + hex_byte(x[6]);
    let y6 = y5 + hex_byte(y[6]);
    last_byte_splits_off(x6, x[7], y6, y[7]);
    last_byte_splits_off(x5, x[6], y5, y[6]);
    last_byte_splits_off(x4, x[5], y4, y[5]);
    last_byte_splits_off(x3, x[4], y3, y[4]);
    last_byte_splits_off(hex_byte(x[2]), x[3], hex_byte(y[2]), y[3]);
    hex_byte_is_injective(x[2], y[2]);
    assert(a.data4@ =~= b.data4@);
}

proof fn parts_are_digits(guid: Guid)
    ensures
        all_digits(hex(guid.data1 as nat)),
        all_digits(hex(guid.data2 as nat)),
        all_digits(hex(guid.data3 as nat)),
        all_digits(clock_text(guid)),
        all_digits(node_text(guid)),
{
    hex_is_digits(guid.data1 as nat);
    hex_is_digits(guid.data2 as nat);
    hex_is_digits(guid.data3 as nat);
    let b = guid.data4;
    hex_byte_is_digits(b[0]);
    hex_byte_is_digits(b[1]);
    digits_concatenate(hex_byte(b[0]), hex_byte(b[1]));
    hex_byte_is_digits(b[2]);
    hex_byte_is_digits(b[3]);
    hex_byte_is_digits(b[4]);
    hex_byte_is_digits(b[5]);
    hex_byte_is_digits(b[6]);
    hex_byte_is_digits(b[7]);
    let n3 = hex_byte(b[2]) + hex_byte(b[3]);
    digits_concatenate(hex_byte(b[2]), hex_byte(b[3]));
    let n4 = n3 + hex_byte(b[4]);
    digits_concatenate(n3, hex_byte(b[4]));
    let n5 = n4 + hex_byte(b[5]);
    digits_concatenate(n4, hex_byte(b[5]));
    let n6 = n5 + hex_byte(b[6]);
    digits_concatenate(n5, hex_byte(b[6]));
    digits_concatenate(n6, hex_byte(b[7]));
}

/// Five texts, joined by hyphens from the right, and a zero character.
spec fn joined(a: Seq<char>, b: Seq<char>, c: Seq<char>, d: Seq<char>, e: Seq<char>) -> Seq<char> {
    a + seq!['-'] + (b + seq!['-'] + (c + seq!['-'] + (d + seq!['-'] + (e + seq!['\0']))))
}

proof fn concatenation_regroups(a: Seq<char>, b: Seq<char>, c: Seq<char>)
    ensures
        (a + b) + c == a + (b + c),
{
    assert((a + b) + c =~= a + (b + c));
}

proof fn text_is_joined(guid: Guid)
    ensures
        guid_text(guid) == joined(
            hex(guid.data1 as nat),
            hex(guid.data2 as nat),
            hex(guid.data3 as nat),
            clock_text(guid),
            node_text(guid),
        ),
{
    let h = seq!['-'];
    let z = seq!['\0'];
    let a = hex(guid.data1 as nat);
    let b = hex(guid.data2 as nat);
    let c = hex(guid.data3 as nat);
    let d = clock_text(guid);
    let e = node_text(guid);
    let ah = a + h;
    let ahb = ah + b;
    let ahbh = ahb + h;
    let ahbhc = ahbh + c;
    let ahbhch = ahbhc + h;
    let ahbhchd = ahbhch + d;
    let ahbhchdh = ahbhchd + h;
    let ez = e + z;
    concatenation_regroups(ahbhchdh, e, z);
    concatenation_regroups(ahbhch, d, h);
    let dh = d + h;
    concatenation_regroups(ahbhch, dh, ez);
    let dhez = dh + ez;
    concatenation_regroups(ahbh, c, h);
    let ch = c + h;
    concatenation_regroups(ahbh, ch, dhez);
    let chdhez = ch + dhez;
    concatenation_regroups(ah, b, h);
    let bh = b + h;
    concatenation_regroups(ah, bh, chdhez);
}

proof fn text_is_plain(guid: Guid)
    ensures
        is_plain(guid_text(guid)),
{
    parts_are_digits(guid);
    digits_are_plain(hex(guid.data1 as nat));
    digits_are_plain(hex(guid.data2 as nat));
    digits_are_plain(hex(guid.data3 as nat));
    digits_are_plain(clock_text(guid));
    digits_are_plain(node_text(guid));
    let h = seq!['-'];
    let t1 = hex(guid.data1 as nat) + h;
    plain_concatenates(hex(guid.data1 as nat), h);
    let t2 = t1 + hex(guid.data2 as nat);
    plain_concatenates(t1, hex(guid.data2 as nat));
    let t3 = t2 + h;
    plain_concatenates(t2, h);
    let t4 = t3 + hex(guid.data3 as nat);
    plain_concatenates(t3, hex(guid.data3 as nat));
    let t5 = t4 + h;
    plain_concatenates(t4, h);
    let t6 = t5 + clock_text(guid);
    plain_concatenates(t5, clock_text(guid));
    let t7 = t6 + h;
    plain_concatenates(t6, h);
    let t8 = t7 + node_text(guid);
    plain_concatenates(t7, node_text(guid));
    plain_concatenates(t8, seq!['\0']);
}

proof fn plain_concatenates(a: Seq<char>, b: Seq<char>)
    requires
        is_plain(a),
        is_plain(b),
    ensures
        is_plain(a + b),
{
    assert forall|i: int| 0 <= i < (a + b).len() implies (#[trigger] (a + b)[i] as int) < 0x80 by {
        if i < a.len() {
            assert((a + b)[i] == a[i]);
        } else {
            assert((a + b)[i] == b[i - a.len()]);
        }
    }
}

/// Class names are unique: two classes have the same name exactly if they were made with the same
/// identifier.
pub proof fn class_names_are_unique(a: Guid, b: Guid)
    ensures
        class_name(a) == class_name(b) <==> {
            &&& a.data1 == b.data1
            &&& a.data2 == b.data2
            &&& a.data3 == b.data3
            &&& a.data4@ == b.data4@
        },
{
    if class_name(a) == class_name(b) {
        let prefix = "Baseview-"@;
        text_is_plain(a);
        text_is_plain(b);
        reveal_strlit("Baseview-");
        assert(is_plain(prefix));
        plain_concatenates(prefix, guid_text(a));
        plain_concatenates(prefix, guid_text(b));
        plain_texts_are_kept_apart(prefix + guid_text(a), prefix + guid_text(b));
        assert(guid_text(a) == (prefix + guid_text(a)).skip(prefix.len() as int));
        assert(guid_text(b) == (prefix + guid_text(b)).skip(prefix.len() as int));
        texts_agree_only_with_their_identifiers(a, b);
        bytes_are_kept_apart(a, b);
    } else {
        assert(a.data4@ == b.data4@ ==> forall|i: int| 0 <= i < 8 ==> a.data4[i] == b.data4[i]);
    }
}

proof fn texts_agree_only_with_their_identifiers(a: Guid, b: Guid)
    requires
        guid_text(a) == guid_text(b),
    ensures
        a.data1 == b.data1,
        a.data2 == b.data2,
        a.data3 == b.data3,
        clock_text(a) == clock_text(b),
        node_text(a) == node_text(b),
{
    let h = seq!['-'];
    let z = seq!['\0'];
    parts_are_digits(a);
    parts_are_digits(b);
    text_is_joined(a);
    text_is_joined(b);
    digits_are_plain(hex(a.data1 as nat));
    digits_are_plain(hex(b.data1 as nat));
    digits_are_plain(hex(a.data2 as nat));
    digits_are_plain(hex(b.data2 as nat));
    digits_are_plain(hex(a.data3 as nat));
    digits_are_plain(hex(b.data3 as nat));
    digits_are_plain(clock_text(a));
    digits_are_plain(clock_text(b));
    let a4 = node_text(a) + z;
    let b4 = node_text(b) + z;
    let a3 = clock_text(a) + h + a4;
    let b3 = clock_text(b) + h + b4;
    let a2 = hex(a.data3 as nat) + h + a3;
    let b2 = hex(b.data3 as nat) + h + b3;
    let a1 = hex(a.data2 as nat) + h + a2;
    let b1 = hex(b.data2 as nat) + h + b2;
    splits_at_hyphen(hex(a.data1 as nat), a1, hex(b.data1 as nat), b1);
    splits_at_hyphen(hex(a.data2 as nat), a2, hex(b.data2 as nat), b2);
    splits_at_hyphen(hex(a.data3 as nat), a3, hex(b.data3 as nat), b3);
    splits_at_hyphen(clock_text(a), a4, clock_text(b), b4);
    hex_is_injective(a.data1 as nat, b.data1 as nat);
    hex_is_injective(a.data2 as nat, b.data2 as nat);
    hex_is_injective(a.data3 as nat, b.data3 as nat);
    assert(node_text(a) == a4.drop_last());
    assert(node_text(b) == b4.drop_last());
}

/// The name of a class is read back as its prefix and the parts of the identifier, in order and
/// parted by hyphens. The three numbers are written without leading zeros, the eight bytes with
/// two digits each, and a zero character comes before the zero that ends the name.
pub proof fn class_name_is_read_back(guid: Guid)
    ensures
        class_name(guid).len() > 0,
        class_name(guid).last() == 0,
        ({
            let h = seq!['-'];
            let b = guid.data4@;
            let text = hex(guid.data1 as nat) + h + hex(guid.data2 as nat) + h + hex(
                guid.data3 as nat,
            ) + h + (hex_byte(b[0]) + hex_byte(b[1])) + h + (hex_byte(b[2]) + hex_byte(b[3])
                + hex_byte(b[4]) + hex_byte(b[5]) + hex_byte(b[6]) + hex_byte(b[7])) + seq!['\0'];
            &&& guid_text(guid) == text
            &&& code_points(class_name(guid).drop_last()) == codes(
                seq!['B', 'a', 's', 'e', 'v', 'i', 'e', 'w', '-'] + text,
            )
        }),
{
    reveal_strlit("Baseview-");
    assert("Baseview-"@ =~= seq!['B', 'a', 's', 'e', 'v', 'i', 'e', 'w', '-']);
    wide_text_is_the_text_and_a_zero("Baseview-"@ + guid_text(guid));
}

} // verus!
