//! The extended attributes of the guest, kept under names that the host lets any user write.

use crate::override_stat::XATTR_KEY;
use crate::text::{digit_value, field_end, fields, find_field_end, lemma_fields_cons};
use vstd::prelude::*;

verus! {

/// What the name of every guest attribute starts with on the host: `user.containers.guest_xattr.`.
pub const GUEST_XATTR_PREFIX: [u8; 28] = [
    117, 115, 101, 114, 46, 99, 111, 110, 116, 97, 105, 110, 101, 114, 115, 46, 103, 117, 101, 115,
    116, 95, 120, 97, 116, 116, 114, 46,
];

/// A digit of a hexadecimal number, in lower case.
pub open spec fn hex_digit(n: int) -> u8 {
    if n < 10 {
        (48 + n) as u8
    } else {
        (87 + n) as u8
    }
}

/// Two hexadecimal digits for each byte of `name`.
pub open spec fn hex_text(name: Seq<u8>) -> Seq<u8> {
    Seq::new(
        2 * name.len(),
        |i: int|
            if i % 2 == 0 {
                hex_digit(name[i / 2] as int / 16)
            } else {
                hex_digit(name[i / 2] as int % 16)
            },
    )
}

/// The name on the host for the guest's `name`.
pub open spec fn host_name(name: Seq<u8>) -> Seq<u8> {
    GUEST_XATTR_PREFIX@ + hex_text(name)
}

/// The bytes that pairs of hexadecimal digits stand for.
pub open spec fn bytes_of_hex(text: Seq<u8>) -> Seq<u8> {
    Seq::new(
        (text.len() / 2) as nat,
        |i: int| (16 * digit_value(text[2 * i]) + digit_value(text[2 * i + 1])) as u8,
    )
}

/// Whether `text` is a number of whole bytes, more than none, in hexadecimal digits of either case.
pub open spec fn is_hex(text: Seq<u8>) -> bool {
    &&& text.len() > 0
    &&& text.len() % 2 == 0
    &&& forall|i: int| 0 <= i < text.len() ==> digit_value(#[trigger] text[i]) < 16
}

/// The guest's name behind `name` on the host, if there is one: what follows the prefix spells it
/// in hexadecimal, and it holds no zero byte.
pub open spec fn guest_name(name: Seq<u8>) -> Option<Seq<u8>> {
    let encoded = name.skip(28);
    if GUEST_XATTR_PREFIX@.is_prefix_of(name) && is_hex(encoded) && !bytes_of_hex(encoded).contains(
        0,
    ) {
        Some(bytes_of_hex(encoded))
    } else {
        None
    }
}

/// What one name of the host adds to the guest's list: the guest's name and its end, or nothing.
pub open spec fn shown(name: Seq<u8>) -> Seq<u8> {
    match guest_name(name) {
        Some(name) => name.push(0),
        None => Seq::empty(),
    }
}

/// The guest's list for the names `items` of the host, in their order.
pub open spec fn shown_all(items: Seq<Seq<u8>>) -> Seq<u8>
    decreases items.len(),
{
    if items.len() == 0 {
        Seq::empty()
    } else {
        shown(items[0]) + shown_all(items.skip(1))
    }
}

/// A list of names as the kernel writes it, each followed by a zero byte.
pub open spec fn terminated(names: Seq<Seq<u8>>) -> Seq<u8>
    decreases names.len(),
{
    if names.len() == 0 {
        Seq::empty()
    } else {
        names[0].push(0) + terminated(names.skip(1))
    }
}

/// Whether `name` can be the name of an attribute.
pub open spec fn is_name(name: Seq<u8>) -> bool {
    name.len() > 0 && !name.contains(0)
}

fn hex_char(n: u8) -> (c: u8)
    requires
        n < 16,
    ensures
        c == hex_digit(n as int),
{
    if n < 10 {
        48 + n
    } else {
        87 + n
    }
}

/// The name on the host for an attribute of the guest. It holds no zero byte.
pub fn host_xattr_name_for_guest(name: &[u8]) -> (host: Vec<u8>)
    ensures
        host@ == host_name(name@),
        !host@.contains(0),
{
    let mut host: Vec<u8> = Vec::new();
    let mut i: usize = 0;
    while i < 28
        invariant
            i <= 28,
            host@ == GUEST_XATTR_PREFIX@.take(i as int),
        decreases 28 - i,
    {
        host.push(GUEST_XATTR_PREFIX[i]);
        i = i + 1;
        assert(host@ =~= GUEST_XATTR_PREFIX@.take(i as int));
    }
    assert(host@ =~= GUEST_XATTR_PREFIX@);
    let mut i: usize = 0;
    assert(host@ =~= host_name(name@.take(0)));
    while i < name.len()
        invariant
            i <= name@.len(),
            host@ == host_name(name@.take(i as int)),
        decreases name.len() - i,
    {
        let b: u8 = name[i];
        assert(b >> 4 == b / 16 && b & 0x0f == b % 16) by (bit_vector);
        host.push(hex_char(b >> 4));
        host.push(hex_char(b & 0x0f));
        proof {
            let before = name@.take(i as int);
            let after = name@.take(i + 1);
            assert forall|k: int| 0 <= k < 2 * after.len() implies (hex_text(before).push(
                hex_digit(b as int / 16),
            ).push(hex_digit(b as int % 16)))[k] == hex_text(after)[k] by {
                if k < 2 * i {
                    assert(before[k / 2] == after[k / 2]);
                } else {
                    assert(k / 2 == i);
                    assert(after[i as int] == b);
                }
            }
            assert(host@ =~= host_name(after));
        }
        i = i + 1;
    }
    assert(name@.take(i as int) =~= name@);
    proof {
        lemma_host_name_has_no_zero(name@);
    }
    host
}

proof fn lemma_prefix_has_no_zero()
    ensures
        forall|i: int| 0 <= i < 28 ==> #[trigger] GUEST_XATTR_PREFIX@[i] != 0,
{
    assert(GUEST_XATTR_PREFIX@.len() == 28);
}

proof fn lemma_host_name_has_no_zero(name: Seq<u8>)
    ensures
        !host_name(name).contains(0),
{
    lemma_prefix_has_no_zero();
    assert forall|i: int| 0 <= i < host_name(name).len() implies host_name(name)[i] != 0 by {
        if i >= 28 {
            assert(host_name(name)[i] == hex_text(name)[i - 28]);
        }
    }
}

fn hex_value(b: u8) -> (v: Option<u8>)
    ensures
        v == (if digit_value(b) < 16 {
            Some(digit_value(b) as u8)
        } else {
            None
        }),
{
    if 48 <= b && b <= 57 {
        Some(b - 48)
    } else if 97 <= b && b <= 102 {
        Some(b - 97 + 10)
    } else if 65 <= b && b <= 70 {
        Some(b - 65 + 10)
    } else {
        None
    }
}

/// The guest's name for an attribute of the host.
pub fn guest_xattr_name_from_host(name: &[u8]) -> (guest: Option<Vec<u8>>)
    ensures
        match guest {
            Some(guest) => guest_name(name@) == Some(guest@),
            None => guest_name(name@) is None,
        },
{
    if name.len() < 28 {
        return None;
    }
    let mut i: usize = 0;
    while i < 28
        invariant
            i <= 28 <= name@.len(),
            forall|k: int| 0 <= k < i ==> name@[k] == GUEST_XATTR_PREFIX@[k],
        decreases 28 - i,
    {
        if name[i] != GUEST_XATTR_PREFIX[i] {
            assert(!GUEST_XATTR_PREFIX@.is_prefix_of(name@)) by {
                if GUEST_XATTR_PREFIX@.is_prefix_of(name@) {
                    assert(name@.subrange(0, 28)[i as int] == GUEST_XATTR_PREFIX@[i as int]);
                }
            }
            return None;
        }
        i = i + 1;
    }
    assert(name@.subrange(0, 28) =~= GUEST_XATTR_PREFIX@);
    let ghost encoded = name@.skip(28);
    if name.len() == 28 || (name.len() - 28) % 2 != 0 {
        return None;
    }
    let mut guest: Vec<u8> = Vec::new();
    let mut i: usize = 28;
    let mut has_zero: bool = false;
    while i < name.len()
        invariant
            28 <= i <= name@.len(),
            i % 2 == 0,
            name@.len() % 2 == 0,
            encoded == name@.skip(28),
            guest@.len() == (i - 28) / 2,
            forall|k: int| 0 <= k < i - 28 ==> digit_value(#[trigger] encoded[k]) < 16,
            forall|k: int|
                0 <= k < guest@.len() ==> #[trigger] guest@[k] == bytes_of_hex(encoded)[k],
            has_zero == guest@.contains(0),
        decreases name.len() - i,
    {
        assert(encoded[i - 28] == name@[i as int]);
        assert(encoded[i + 1 - 28] == name@[i + 1]);
        let high: u8 = match hex_value(name[i]) {
            Some(v) => v,
            None => {
                return None;
            },
        };
        let low: u8 = match hex_value(name[i + 1]) {
            Some(v) => v,
            None => {
                return None;
            },
        };
        assert((high << 4) | low == 16 * high + low) by (bit_vector)
            requires
                high < 16,
                low < 16,
        ;
        let b: u8 = (high << 4) | low;
        let ghost before = guest@;
        guest.push(b);
        proof {
            let k = (i - 28) / 2;
            assert(2 * k == i - 28);
            assert(bytes_of_hex(encoded)[k] == b);
            assert(guest@[k] == b);
            if before.contains(0) {
                let z = choose|z: int| 0 <= z < before.len() && before[z] == 0;
                assert(guest@[z] == 0);
            }
            if guest@.contains(0) && b != 0 {
                let z = choose|z: int| 0 <= z < guest@.len() && guest@[z] == 0;
                assert(before[z] == 0);
            }
        }
        if b == 0 {
            has_zero = true;
        }
        i = i + 2;
    }
    assert(guest@ =~= bytes_of_hex(encoded));
    if has_zero {
        return None;
    }
    Some(guest)
}

/// The guest's list of attributes for a list of the host.
pub fn guest_xattr_list_from_host(host_list: &[u8]) -> (guest_list: Vec<u8>)
    ensures
        guest_list@ == shown_all(fields(host_list@, 0)),
{
    let mut guest_list: Vec<u8> = Vec::new();
    let mut from: usize = 0;
    let mut more: bool = true;
    assert(host_list@.skip(0) =~= host_list@);
    assert(guest_list@ + shown_all(fields(host_list@, 0)) =~= shown_all(fields(host_list@, 0)));
    while more
        invariant
            from <= host_list@.len(),
            more ==> guest_list@ + shown_all(fields(host_list@.skip(from as int), 0)) == shown_all(
                fields(host_list@, 0),
            ),
            !more ==> guest_list@ == shown_all(fields(host_list@, 0)),
        decreases
            host_list.len() - from,
            (if more {
                1int
            } else {
                0int
            }),
    {
        let end: usize = find_field_end(host_list, from, 0);
        let ghost rest = host_list@.skip(from as int);
        let ghost before = guest_list@;
        let item: &[u8] = vstd::slice::slice_subrange(host_list, from, end);
        assert(item@ =~= rest.take(end - from));
        if let Some(name) = guest_xattr_name_from_host(item) {
            let mut name = name;
            guest_list.append(&mut name);
            guest_list.push(0);
        }
        assert(guest_list@ =~= before + shown(item@));
        if end < host_list.len() {
            proof {
                let tail = rest.skip(end - from + 1);
                assert(tail =~= host_list@.skip(end + 1));
                assert(fields(rest, 0) == seq![item@] + fields(tail, 0));
                assert(fields(rest, 0).skip(1) =~= fields(tail, 0));
                assert(guest_list@ + shown_all(fields(tail, 0)) =~= before + (shown(item@)
                    + shown_all(fields(tail, 0))));
            }
            from = end + 1;
        } else {
            proof {
                assert(item@ =~= rest);
                assert(fields(rest, 0) == seq![rest]);
                assert(fields(rest, 0).skip(1) =~= Seq::<Seq<u8>>::empty());
                assert(shown_all(fields(rest, 0).skip(1)) == Seq::<u8>::empty());
                assert(shown_all(fields(rest, 0)) =~= shown(item@));
            }
            more = false;
        }
    }
    guest_list
}

/// The guest finds an attribute again under the name that it gave it.
pub proof fn law_guest_name_round_trip(name: Seq<u8>)
    requires
        is_name(name),
    ensures
        guest_name(host_name(name)) == Some(name),
{
    let host = host_name(name);
    let encoded = host.skip(28);
    assert(host.subrange(0, 28) =~= GUEST_XATTR_PREFIX@);
    assert(encoded =~= hex_text(name));
    assert(bytes_of_hex(encoded) =~= name) by {
        assert forall|i: int| 0 <= i < name.len() implies bytes_of_hex(encoded)[i] == name[i] by {
            assert((2 * i) / 2 == i && (2 * i) % 2 == 0);
            assert((2 * i + 1) / 2 == i && (2 * i + 1) % 2 == 1);
            assert(encoded[2 * i] == hex_digit(name[i] as int / 16));
            assert(encoded[2 * i + 1] == hex_digit(name[i] as int % 16));
        }
    }
    assert forall|i: int| 0 <= i < encoded.len() implies digit_value(#[trigger] encoded[i]) < 16 by {
        assert(encoded[i] == hex_text(name)[i]);
    }
}

/// Two names of the guest never share a name on the host.
pub proof fn law_guest_names_stay_apart(a: Seq<u8>, b: Seq<u8>)
    requires
        host_name(a) == host_name(b),
    ensures
        a == b,
{
    assert(host_name(a).skip(28) =~= hex_text(a));
    assert(host_name(b).skip(28) =~= hex_text(b));
    assert(hex_text(a).len() == hex_text(b).len());
    assert forall|i: int| 0 <= i < a.len() implies a[i] == b[i] by {
        assert((2 * i) / 2 == i && (2 * i) % 2 == 0);
        assert((2 * i + 1) / 2 == i && (2 * i + 1) % 2 == 1);
        assert(hex_text(a)[2 * i] == hex_text(b)[2 * i]);
        assert(hex_text(a)[2 * i + 1] == hex_text(b)[2 * i + 1]);
    }
    assert(a =~= b);
}

/// Whatever the guest calls an attribute, it is written under the prefix, and never over the
/// override of owner and mode.
pub proof fn law_guest_names_stay_under_the_prefix(name: Seq<u8>)
    ensures
        GUEST_XATTR_PREFIX@.is_prefix_of(host_name(name)),
        host_name(name) != XATTR_KEY@,
{
    assert(host_name(name).subrange(0, 28) =~= GUEST_XATTR_PREFIX@);
    assert(host_name(name)[16] == GUEST_XATTR_PREFIX@[16]);
    assert(GUEST_XATTR_PREFIX@[16] == 103);
    assert(XATTR_KEY@[16] == 111);
}

/// The override of owner and mode is never listed to the guest, nor is any name of the host that
/// does not start with the prefix.
pub proof fn law_host_names_are_hidden(name: Seq<u8>)
    requires
        name == XATTR_KEY@ || !GUEST_XATTR_PREFIX@.is_prefix_of(name),
    ensures
        guest_name(name) is None,
        shown(name) == Seq::<u8>::empty(),
{
    if name == XATTR_KEY@ && GUEST_XATTR_PREFIX@.is_prefix_of(name) {
        assert(name.subrange(0, 28)[16] == GUEST_XATTR_PREFIX@[16]);
        assert(GUEST_XATTR_PREFIX@[16] == 103);
        assert(XATTR_KEY@[16] == 111);
    }
}

/// A list is shown part by part, so a hidden name leaves no trace in it.
pub proof fn law_list_is_shown_part_by_part(a: Seq<Seq<u8>>, b: Seq<Seq<u8>>)
    ensures
        shown_all(a + b) == shown_all(a) + shown_all(b),
    decreases a.len(),
{
    if a.len() == 0 {
        assert(a + b =~= b);
        assert(shown_all(a) + shown_all(b) =~= shown_all(b));
    } else {
        law_list_is_shown_part_by_part(a.skip(1), b);
        assert((a + b).skip(1) =~= a.skip(1) + b);
        assert(shown_all(a + b) =~= shown(a[0]) + (shown_all(a.skip(1)) + shown_all(b)));
    }
}

/// The attributes that the guest has set are listed under its own names, in the order in which the
/// host lists them.
pub proof fn law_guest_list_round_trip(names: Seq<Seq<u8>>)
    requires
        forall|i: int| 0 <= i < names.len() ==> is_name(#[trigger] names[i]),
    ensures
        shown_all(fields(terminated(names.map_values(|n: Seq<u8>| host_name(n))), 0)) == terminated(
            names,
        ),
    decreases names.len(),
{
    let hosts = names.map_values(|n: Seq<u8>| host_name(n));
    if names.len() == 0 {
        assert(terminated(hosts) =~= Seq::<u8>::empty());
        let none = Seq::<u8>::empty();
        assert(field_end(none, 0) == 0);
        assert(fields(none, 0) == seq![none]);
        assert(fields(none, 0).skip(1) =~= Seq::<Seq<u8>>::empty());
        assert(shown_all(fields(none, 0).skip(1)) == none);
        assert(shown(none) == none);
        assert(shown_all(fields(none, 0)) =~= none);
    } else {
        assert(is_name(names[0]));
        law_guest_list_round_trip(names.skip(1));
        law_guest_name_round_trip(names[0]);
        lemma_host_name_has_no_zero(names[0]);
        assert(hosts.skip(1) =~= names.skip(1).map_values(|n: Seq<u8>| host_name(n)));
        assert(terminated(hosts) == host_name(names[0]).push(0) + terminated(hosts.skip(1)));
        lemma_fields_cons(host_name(names[0]), 0, terminated(hosts.skip(1)));
        let items = fields(terminated(hosts), 0);
        assert(items.skip(1) =~= fields(terminated(hosts.skip(1)), 0));
        assert(items[0] == host_name(names[0]));
    }
}

} // verus!
