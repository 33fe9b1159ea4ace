//! Device names as Win32 takes them: UTF-16, in the device namespace, with a terminator.
use vstd::prelude::*;
use vstd::string::*;

verus! {

/// A character in UTF-16: one unit, or a surrogate pair.
pub open spec fn utf16_units(c: char) -> Seq<u16> {
    let n = c as u32;
    if n < 0x1_0000 {
        seq![n as u16]
    } else {
        seq![
            (0xd800 + (n - 0x1_0000) / 0x400) as u16,
            (0xdc00 + (n - 0x1_0000) % 0x400) as u16,
        ]
    }
}

/// A text in UTF-16.
pub open spec fn utf16(text: Seq<char>) -> Seq<u16>
    decreases text.len(),
{
    if text.len() == 0 {
        Seq::empty()
    } else {
        utf16(text.drop_last()) + utf16_units(text.last())
    }
}

/// The name under which a device is opened: a path that does not start with a backslash is taken
/// as a name in the device namespace.
pub open spec fn spec_device_name(path: Seq<char>) -> Seq<u16> {
    (if path.len() > 0 && path[0] == '\\' {
        utf16(path)
    } else {
        utf16("\\\\.\\"@) + utf16(path)
    }).push(0)
}

/// Appends a text in UTF-16.
fn push_utf16(units: &mut Vec<u16>, text: &str)
    ensures
        final(units)@ == old(units)@ + utf16(text@),
{
    let ghost before: Seq<u16> = units@;
    assert(units@ =~= before + utf16(text@.take(0)));
    for c in it: text.chars()
        invariant
            units@ == before + utf16(text@.take(it.index() as int)),
            it.seq() == text@,
    {
        let n: u32 = c as u32;
        assert(text@.take(it.index() + 1).drop_last() =~= text@.take(it.index() as int));
        assert(text@.take(it.index() + 1).last() == c);
        if n < 0x1_0000 {
            units.push(n as u16);
        } else {
            units.push((0xd800 + (n - 0x1_0000) / 0x400) as u16);
            units.push((0xdc00 + (n - 0x1_0000) % 0x400) as u16);
        }
        assert(units@ =~= before + utf16(text@.take(it.index() + 1)));
    }
    assert(text@.take(text@.len() as int) =~= text@);
}

/// The name under which the device at `path` is opened.
pub fn device_name(path: &str) -> (r: Vec<u16>)
    ensures
        r@ == spec_device_name(path@),
{
    let mut name: Vec<u16> = Vec::new();
    let absolute: bool = path.unicode_len() > 0 && path.get_char(0) == '\\';
    if !absolute {
        push_utf16(&mut name, "\\\\.\\");
    }
    push_utf16(&mut name, path);
    name.push(0);
    assert(name@ =~= spec_device_name(path@));
    name
}

/// The last unit of a character tells how many there are, and all of them tell the character.
proof fn lemma_units_tell_character(c: char, d: char)
    ensures
        utf16_units(c).last() == utf16_units(d).last() ==> utf16_units(c).len() == utf16_units(
            d,
        ).len(),
        utf16_units(c) == utf16_units(d) ==> c == d,
{
    let (x, y) = (utf16_units(c), utf16_units(d));
    let (m, n) = (c as u32, d as u32);
    assert(m < 0xd800 || 0xe000 <= m <= 0x10_ffff);
    assert(n < 0xd800 || 0xe000 <= n <= 0x10_ffff);
    if x == y {
        if m < 0x1_0000 && n < 0x1_0000 {
            assert(x[0] == m && y[0] == n);
        } else if m >= 0x1_0000 && n >= 0x1_0000 {
            assert(x[0] == 0xd800 + (m - 0x1_0000) / 0x400);
            assert(x[1] == 0xdc00 + (m - 0x1_0000) % 0x400);
            assert(y[0] == 0xd800 + (n - 0x1_0000) / 0x400);
            assert(y[1] == 0xdc00 + (n - 0x1_0000) % 0x400);
        } else {
            assert(x.len() != y.len());
        }
        assert(m == n);
    }
}

/// Paths with one UTF-16 form are one path.
pub proof fn lemma_utf16_injective(a: Seq<char>, b: Seq<char>)
    requires
        utf16(a) == utf16(b),
    ensures
        a == b,
    decreases a.len(),
{
    if a.len() == 0 {
        if b.len() > 0 {
            assert(utf16(b).len() > 0);
        }
        assert(a =~= b);
    } else {
        if b.len() == 0 {
            assert(utf16(a).len() > 0);
        }
        let x = utf16_units(a.last());
        let y = utf16_units(b.last());
        let ua = utf16(a);
        let n = ua.len();
        assert(ua.last() == x.last());
        assert(ua.last() == y.last());
        lemma_units_tell_character(a.last(), b.last());
        assert(ua.skip(n - x.len()) =~= x);
        assert(ua.skip(n - y.len()) =~= y);
        assert(ua.subrange(0, n - x.len()) =~= utf16(a.drop_last()));
        assert(ua.subrange(0, n - y.len()) =~= utf16(b.drop_last()));
        lemma_utf16_injective(a.drop_last(), b.drop_last());
        assert(a =~= a.drop_last().push(a.last()));
        assert(b =~= b.drop_last().push(b.last()));
    }
}

/// The device name says which path it was made from, as long as both paths start with a backslash
/// or neither does.
pub proof fn law_device_name_tells_path(a: Seq<char>, b: Seq<char>)
    requires
        spec_device_name(a) == spec_device_name(b),
        (a.len() > 0 && a[0] == '\\') == (b.len() > 0 && b[0] == '\\'),
    ensures
        a == b,
{
    let prefix = utf16("\\\\.\\"@);
    let (x, y) = (spec_device_name(a).drop_last(), spec_device_name(b).drop_last());
    if a.len() > 0 && a[0] == '\\' {
        assert(x =~= utf16(a));
        assert(y =~= utf16(b));
    } else {
        assert(x.skip(prefix.len() as int) =~= utf16(a));
        assert(y.skip(prefix.len() as int) =~= utf16(b));
    }
    lemma_utf16_injective(a, b);
}

/// A character can be told from its UTF-16 units: one unit is its number, two are surrogates that
/// hold the number between them.
pub proof fn law_units_hold_the_character(c: char)
    ensures
        ({
            let units = utf16_units(c);
            let n = c as u32;
            &&& units.len() == 1 || units.len() == 2
            &&& units.len() == 1 <==> n < 0x1_0000
            &&& units.len() == 1 ==> units[0] == n
            &&& units.len() == 2 ==> {
                &&& 0xd800 <= units[0] < 0xdc00
                &&& 0xdc00 <= units[1] < 0xe000
                &&& 0x1_0000 + (units[0] - 0xd800) * 0x400 + (units[1] - 0xdc00) == n
            }
        }),
{
    let n = c as u32;
    assert(n <= 0x10_ffff);
    if n >= 0x1_0000 {
        let units = utf16_units(c);
        assert(units[0] == 0xd800 + (n - 0x1_0000) / 0x400);
        assert(units[1] == 0xdc00 + (n - 0x1_0000) % 0x400);
    }
}

/// Text in UTF-16 is that of its parts, one after the other.
pub proof fn law_utf16_goes_by_parts(a: Seq<char>, b: Seq<char>)
    ensures
        utf16(a + b) == utf16(a) + utf16(b),
        utf16(Seq::<char>::empty()).len() == 0,
        b.len() == 1 ==> utf16(b) == utf16_units(b[0]),
    decreases b.len(),
{
    if b.len() == 0 {
        assert(a + b =~= a);
        assert(utf16(a) + utf16(b) =~= utf16(a));
    } else {
        law_utf16_goes_by_parts(a, b.drop_last());
        assert((a + b).drop_last() =~= a + b.drop_last());
        assert((a + b).last() == b.last());
        assert(utf16(a + b) =~= utf16(a) + utf16(b));
        if b.len() == 1 {
            assert(b.drop_last() =~= Seq::<char>::empty());
            assert(utf16(b) =~= utf16_units(b[0]));
        }
    }
}

/// A path that starts with a backslash is the device's name as it is; any other path, an empty one
/// too, names what it names in the device namespace. Every name ends in a zero.
pub proof fn law_device_name_is_the_path(path: Seq<char>)
    ensures
        spec_device_name(path).last() == 0,
        path.len() > 0 && path[0] == '\\' ==> spec_device_name(path).drop_last() == utf16(path),
        path.len() == 0 || path[0] != '\\' ==> spec_device_name(path) == spec_device_name(
            seq!['\\', '\\', '.', '\\'] + path,
        ),
{
    reveal_strlit("\\\\.\\");
    let prefix = seq!['\\', '\\', '.', '\\'];
    assert("\\\\.\\"@ =~= prefix);
    law_utf16_goes_by_parts(prefix, path);
    if path.len() > 0 && path[0] == '\\' {
        assert(spec_device_name(path).drop_last() =~= utf16(path));
    } else {
        assert((prefix + path)[0] == '\\');
    }
}

} // verus!
