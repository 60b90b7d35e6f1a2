//! The records in which the kernel lists a directory.
//!
//! A record starts with the number of the file (eight bytes), the position of the next record in
//! the directory (eight), its own length (two) and the type of the file (one), in the machine's byte
//! order. The name follows, ended by a zero byte and padded to the record's length.

use crate::model::ByteOrder;
use crate::text::{field_end, find_field_end, lemma_field_end, lemma_field_end_is};
use vstd::arithmetic::power::pow;
use vstd::prelude::*;

verus! {

/// The bytes of a record before the name.
pub const HEADER_SIZE: usize = 19;

/// The number that bytes stand for, the least significant byte first.
pub open spec fn le_number(bytes: Seq<u8>) -> nat
    decreases bytes.len(),
{
    if bytes.len() == 0 {
        0
    } else {
        bytes[0] as nat + 256 * le_number(bytes.skip(1))
    }
}

pub proof fn lemma_le_number_bound(bytes: Seq<u8>)
    ensures
        le_number(bytes) < pow(256, bytes.len()),
    decreases bytes.len(),
{
    reveal(pow);
    if bytes.len() > 0 {
        lemma_le_number_bound(bytes.skip(1));
    }
}

/// The number that bytes stand for on a machine of this byte order.
pub open spec fn number_in(order: ByteOrder, bytes: Seq<u8>) -> nat {
    match order {
        ByteOrder::Little => le_number(bytes),
        ByteOrder::Big => le_number(bytes.reverse()),
    }
}

proof fn lemma_eight_bytes(bytes: Seq<u8>)
    requires
        bytes.len() <= 8,
    ensures
        le_number(bytes) <= u64::MAX,
        le_number(bytes.reverse()) <= u64::MAX,
{
    lemma_le_number_bound(bytes);
    lemma_le_number_bound(bytes.reverse());
    let n = bytes.len();
    assert(pow(256, n) <= 0x1_0000_0000_0000_0000) by {
        reveal_with_fuel(pow, 9);
    }
}

fn read_le_number(buf: &[u8], at: usize, n: usize) -> (number: u64)
    requires
        at + n <= buf@.len(),
        n <= 8,
    ensures
        number == le_number(buf@.subrange(at as int, at + n)),
{
    let mut number: u64 = 0;
    let mut i: usize = n;
    let len: usize = buf.len();
    while i > 0
        invariant
            i <= n <= 8,
            at + n <= len,
            len == buf@.len(),
            number == le_number(buf@.subrange(at + i, at + n)),
        decreases i,
    {
        i = i - 1;
        let ghost rest = buf@.subrange(at + i, at + n);
        assert(rest.skip(1) =~= buf@.subrange(at + i + 1, at + n));
        proof {
            lemma_eight_bytes(rest);
        }
        number = buf[at + i] as u64 + 256 * number;
    }
    number
}

fn read_be_number(buf: &[u8], at: usize, n: usize) -> (number: u64)
    requires
        at + n <= buf@.len(),
        n <= 8,
    ensures
        number == le_number(buf@.subrange(at as int, at + n).reverse()),
{
    let mut number: u64 = 0;
    let mut i: usize = 0;
    let len: usize = buf.len();
    while i < n
        invariant
            i <= n <= 8,
            at + n <= len,
            len == buf@.len(),
            number == le_number(buf@.subrange(at as int, at + i).reverse()),
        decreases n - i,
    {
        let ghost read = buf@.subrange(at as int, at + i + 1);
        assert(read.reverse().skip(1) =~= buf@.subrange(at as int, at + i).reverse());
        assert(read.reverse()[0] == buf@[at + i]);
        proof {
            lemma_eight_bytes(read);
        }
        number = buf[at + i] as u64 + 256 * number;
        i = i + 1;
    }
    number
}

/// Reads the number in the `n` bytes from `at` on.
pub fn read_number(order: ByteOrder, buf: &[u8], at: usize, n: usize) -> (number: u64)
    requires
        at + n <= buf@.len(),
        n <= 8,
    ensures
        number == number_in(order, buf@.subrange(at as int, at + n)),
{
    match order {
        ByteOrder::Little => read_le_number(buf, at, n),
        ByteOrder::Big => read_be_number(buf, at, n),
    }
}

/// The `n` bytes that stand for a number, the least significant byte first.
pub open spec fn le_bytes(number: nat, n: nat) -> Seq<u8>
    decreases n,
{
    if n == 0 {
        Seq::empty()
    } else {
        seq![(number % 256) as u8] + le_bytes(number / 256, (n - 1) as nat)
    }
}

/// The `n` bytes in which a machine of this byte order keeps a number.
pub open spec fn bytes_of(order: ByteOrder, number: nat, n: nat) -> Seq<u8> {
    match order {
        ByteOrder::Little => le_bytes(number, n),
        ByteOrder::Big => le_bytes(number, n).reverse(),
    }
}

fn push_le_u64(out: &mut Vec<u8>, number: u64)
    ensures
        final(out)@ == old(out)@ + le_bytes(number as nat, 8),
{
    let mut left: u64 = number;
    let mut i: usize = 0;
    assert(out@ + le_bytes(left as nat, 8) =~= old(out)@ + le_bytes(number as nat, 8));
    while i < 8
        invariant
            i <= 8,
            out@ + le_bytes(left as nat, (8 - i) as nat) == old(out)@ + le_bytes(number as nat, 8),
        decreases 8 - i,
    {
        let ghost before = out@;
        out.push((left % 256) as u8);
        assert(before + le_bytes(left as nat, (8 - i) as nat) =~= out@ + le_bytes(
            left as nat / 256,
            (7 - i) as nat,
        ));
        left = left / 256;
        i = i + 1;
    }
    assert(out@ + le_bytes(left as nat, 0) =~= out@);
}

proof fn lemma_le_bytes_len(number: nat, n: nat)
    ensures
        le_bytes(number, n).len() == n,
    decreases n,
{
    if n > 0 {
        lemma_le_bytes_len(number / 256, (n - 1) as nat);
    }
}

/// Writes a number in eight bytes.
pub fn push_u64(order: ByteOrder, out: &mut Vec<u8>, number: u64)
    ensures
        final(out)@ == old(out)@ + bytes_of(order, number as nat, 8),
{
    match order {
        ByteOrder::Little => push_le_u64(out, number),
        ByteOrder::Big => {
            let mut bytes: Vec<u8> = Vec::new();
            push_le_u64(&mut bytes, number);
            let ghost little = le_bytes(number as nat, 8);
            proof {
                lemma_le_bytes_len(number as nat, 8);
                assert(bytes@ =~= little);
            }
            let mut i: usize = 8;
            assert(out@ =~= old(out)@ + little.reverse().take(0));
            while i > 0
                invariant
                    i <= 8,
                    bytes@ == little,
                    little.len() == 8,
                    out@ == old(out)@ + little.reverse().take(8 - i),
                decreases i,
            {
                i = i - 1;
                out.push(bytes[i]);
                assert(out@ =~= old(out)@ + little.reverse().take(8 - i));
            }
            assert(little.reverse().take(8) =~= little.reverse());
        },
    }
}

proof fn lemma_le_bytes_round_trip(number: nat, n: nat)
    requires
        number < pow(256, n),
    ensures
        le_number(le_bytes(number, n)) == number,
    decreases n,
{
    reveal(pow);
    if n > 0 {
        let rest = le_bytes(number / 256, (n - 1) as nat);
        assert(number / 256 < pow(256, (n - 1) as nat)) by (nonlinear_arith)
            requires
                number < 256 * pow(256, (n - 1) as nat),
        ;
        lemma_le_bytes_round_trip(number / 256, (n - 1) as nat);
        assert(le_bytes(number, n).skip(1) =~= rest);
    }
}

/// A number that fits `n` bytes is read back from the bytes in which it is kept.
pub proof fn law_number_bytes_round_trip(order: ByteOrder, number: nat, n: nat)
    requires
        number < pow(256, n),
    ensures
        bytes_of(order, number, n).len() == n,
        number_in(order, bytes_of(order, number, n)) == number,
{
    lemma_le_bytes_len(number, n);
    lemma_le_bytes_round_trip(number, n);
    assert(le_bytes(number, n).reverse().reverse() =~= le_bytes(number, n));
}

/// An entry of a directory, in a list of records.
#[derive(Clone, Copy, Debug, PartialEq, Eq)]
pub struct DirRecord {
    pub ino: u64,
    /// The position of the next entry in the directory.
    pub offset: u64,
    pub type_: u32,
    /// Where the name starts in the list.
    pub name_start: usize,
    /// Where the name ends in the list, without its zero byte.
    pub name_end: usize,
    /// Where the record ends in the list.
    pub end: usize,
}

/// The length that the record at `at` gives itself.
pub open spec fn record_len(order: ByteOrder, list: Seq<u8>, at: int) -> int {
    number_in(order, list.subrange(at + 16, at + 18)) as int
}

/// The length of the name in the record at `at`.
pub open spec fn name_len(list: Seq<u8>, at: int) -> int {
    field_end(list.skip(at + 19), 0)
}

/// Whether a whole record starts at `at`, and its name ends in it.
pub open spec fn is_record(order: ByteOrder, list: Seq<u8>, at: int) -> bool {
    &&& 0 <= at
    &&& at + 19 <= list.len()
    &&& at + record_len(order, list, at) <= list.len()
    &&& 19 + name_len(list, at) < record_len(order, list, at)
}

/// Whether `list` is made of records from `at` on.
pub open spec fn are_records(order: ByteOrder, list: Seq<u8>, at: int) -> bool
    decreases list.len() - at,
{
    at == list.len() || (is_record(order, list, at) && {
        proof {
            lemma_field_end(list.skip(at + 19), 0);
        }
        are_records(order, list, at + record_len(order, list, at))
    })
}

/// The record at `at`.
pub open spec fn record_at(order: ByteOrder, list: Seq<u8>, at: int) -> DirRecord {
    DirRecord {
        ino: number_in(order, list.subrange(at, at + 8)) as u64,
        offset: number_in(order, list.subrange(at + 8, at + 16)) as u64,
        type_: list[at + 18] as u32,
        name_start: (at + 19) as usize,
        name_end: (at + 19 + name_len(list, at)) as usize,
        end: (at + record_len(order, list, at)) as usize,
    }
}

/// Reads the record at `at`, if there is one.
pub fn read_record(order: ByteOrder, list: &[u8], at: usize) -> (record: Option<DirRecord>)
    requires
        at <= list@.len(),
    ensures
        match record {
            Some(record) => {
                &&& is_record(order, list@, at as int)
                &&& record == record_at(order, list@, at as int)
                &&& at < record.name_start <= record.name_end < record.end <= list@.len()
                &&& record.end == at + record_len(order, list@, at as int)
            },
            None => !is_record(order, list@, at as int),
        },
{
    if list.len() - at < HEADER_SIZE {
        return None;
    }
    let len: u64 = read_number(order, list, at + 16, 2);
    proof {
        lemma_eight_bytes(list@.subrange(at as int, at + 8));
        lemma_eight_bytes(list@.subrange(at + 8, at + 16));
        lemma_field_end(list@.skip(at + 19), 0);
    }
    let name_start: usize = at + HEADER_SIZE;
    let name_end: usize = find_field_end(list, name_start, 0);
    if len > (list.len() - at) as u64 || (name_end - at) as u64 >= len {
        return None;
    }
    Some(
        DirRecord {
            ino: read_number(order, list, at, 8),
            offset: read_number(order, list, at + 8, 8),
            type_: list[at + 18] as u32,
            name_start,
            name_end,
            end: at + len as usize,
        },
    )
}

/// Whether a list is made of records.
pub fn is_record_list(order: ByteOrder, list: &[u8]) -> (ok: bool)
    ensures
        ok == are_records(order, list@, 0),
{
    let mut at: usize = 0;
    while at < list.len()
        invariant
            at <= list@.len(),
            are_records(order, list@, 0) == are_records(order, list@, at as int),
        decreases list.len() - at,
    {
        match read_record(order, list, at) {
            Some(record) => {
                at = record.end;
            },
            None => {
                return false;
            },
        }
    }
    true
}

/// A record that the kernel writes is read as it was written, wherever it stands in the list: its
/// numbers, its name up to the zero byte, and where the next record starts.
pub proof fn law_record_is_read_as_written(
    order: ByteOrder,
    before: Seq<u8>,
    ino: u64,
    offset: u64,
    ty: u8,
    name: Seq<u8>,
    padding: Seq<u8>,
    after: Seq<u8>,
)
    requires
        !name.contains(0),
        padding.len() > 0,
        padding[0] == 0,
        19 + name.len() + padding.len() <= u16::MAX,
        before.len() + 19 + name.len() + padding.len() + after.len() <= usize::MAX,
    ensures
        ({
            let len = 19 + name.len() + padding.len();
            let head = bytes_of(order, ino as nat, 8) + bytes_of(order, offset as nat, 8)
                + bytes_of(order, len as nat, 2);
            let list = before + head.push(ty) + name + padding + after;
            let record = record_at(order, list, before.len() as int);
            &&& is_record(order, list, before.len() as int)
            &&& record.ino == ino
            &&& record.offset == offset
            &&& record.type_ == ty
            &&& list.subrange(record.name_start as int, record.name_end as int) == name
            &&& record.end == before.len() + len
            &&& list.skip(record.end as int) == after
        }),
{
    let len = 19 + name.len() + padding.len();
    let head = bytes_of(order, ino as nat, 8) + bytes_of(order, offset as nat, 8) + bytes_of(
        order,
        len as nat,
        2,
    );
    let list = before + head.push(ty) + name + padding + after;
    let at = before.len() as int;
    assert(pow(256, 8) == 0x1_0000_0000_0000_0000) by {
        reveal_with_fuel(pow, 9);
    }
    assert(pow(256, 2) == 0x1_0000) by {
        reveal_with_fuel(pow, 3);
    }
    law_number_bytes_round_trip(order, ino as nat, 8);
    law_number_bytes_round_trip(order, offset as nat, 8);
    law_number_bytes_round_trip(order, len as nat, 2);
    assert(list.subrange(at, at + 8) =~= bytes_of(order, ino as nat, 8));
    assert(list.subrange(at + 8, at + 16) =~= bytes_of(order, offset as nat, 8));
    assert(list.subrange(at + 16, at + 18) =~= bytes_of(order, len as nat, 2));
    let rest = list.skip(at + 19);
    assert(rest =~= name + padding + after);
    assert forall|i: int| 0 <= i < name.len() implies rest[i] != 0 by {
        assert(rest[i] == name[i]);
    }
    lemma_field_end_is(rest, 0, name.len() as int);
    assert(list.subrange(at + 19, at + 19 + name.len()) =~= name);
    assert(list.skip(at + len) =~= after);
}

/// Names in records hold no zero byte.
pub proof fn law_record_names_have_no_zero(order: ByteOrder, list: Seq<u8>, at: int)
    requires
        is_record(order, list, at),
        list.len() <= usize::MAX,
    ensures
        ({
            let record = record_at(order, list, at);
            !list.subrange(record.name_start as int, record.name_end as int).contains(0)
        }),
{
    let rest = list.skip(at + 19);
    lemma_field_end(rest, 0);
    let name = list.subrange(at + 19, at + 19 + name_len(list, at));
    assert forall|i: int| 0 <= i < name.len() implies name[i] != 0 by {
        assert(name[i] == rest[i]);
    }
}

/// What bytes stand for, place by place: the first byte counts least where the least significant comes
/// first, and the last where the most significant does; each other counts for one place more.
pub proof fn law_bytes_count_by_their_place(b: u8, rest: Seq<u8>)
    ensures
        number_in(ByteOrder::Little, seq![b] + rest) == b as nat + 256 * number_in(
            ByteOrder::Little,
            rest,
        ),
        number_in(ByteOrder::Big, rest.push(b)) == b as nat + 256 * number_in(ByteOrder::Big, rest),
        number_in(ByteOrder::Little, Seq::empty()) == 0,
        number_in(ByteOrder::Big, Seq::empty()) == 0,
{
    assert((seq![b] + rest).skip(1) =~= rest);
    assert(rest.push(b).reverse()[0] == b);
    assert(rest.push(b).reverse().skip(1) =~= rest.reverse());
    assert(Seq::<u8>::empty().reverse() =~= Seq::<u8>::empty());
}

/// Where a record starts: its head lies in the list, the length in it leads no further than to the end
/// of the list, and behind the head, before that length is over, a zero byte ends the name.
pub proof fn law_record_needs_its_head_and_its_name(order: ByteOrder, list: Seq<u8>, at: int)
    requires
        0 <= at <= list.len(),
    ensures
        is_record(order, list, at) <==> {
            let end = at + number_in(order, list.subrange(at + 16, at + 18));
            &&& at + 19 <= list.len()
            &&& end <= list.len()
            &&& exists|i: int| at + 19 <= i < end && #[trigger] list[i] == 0
        },
        are_records(order, list, list.len() as int),
        at < list.len() ==> (are_records(order, list, at) <==> is_record(order, list, at)
            && are_records(
            order,
            list,
            at + number_in(order, list.subrange(at + 16, at + 18)),
        )),
{
    let rest = list.skip(at + 19);
    let end = at + number_in(order, list.subrange(at + 16, at + 18));
    if at + 19 <= list.len() {
        lemma_field_end(rest, 0);
        let n = name_len(list, at);
        if is_record(order, list, at) {
            assert(rest[n] == 0);
            assert(list[at + 19 + n] == 0);
        }
        if exists|i: int| at + 19 <= i < end && end <= list.len() && #[trigger] list[i] == 0 {
            let i = choose|i: int| at + 19 <= i < end && end <= list.len() && #[trigger] list[i]
                == 0;
            assert(rest[i - at - 19] == 0);
        }
    }
}

} // verus!
