//! Account identifiers, and how they are read from bytes and written to them.

use vstd::prelude::*;

verus! {

/// A 20-byte account identifier, held as the two numbers that its bytes
/// spell in big-endian order: the first four bytes, then the other sixteen.
pub type Address = (u32, u128);

/// The number of bytes of an account identifier.
pub const ADDRESS_LENGTH: usize = 20;

/// The number of values that `count` bytes can spell.
pub open spec fn limit(count: nat) -> nat
    decreases count,
{
    if count == 0 {
        1
    } else {
        256 * limit((count - 1) as nat)
    }
}

/// The number that `bytes` spell in big-endian order.
pub open spec fn be_number(bytes: Seq<u8>) -> nat
    decreases bytes.len(),
{
    if bytes.len() == 0 {
        0
    } else {
        be_number(bytes.drop_last()) * 256 + bytes.last() as nat
    }
}

/// The `count` bytes that spell `number` in big-endian order.
pub open spec fn be_bytes(number: nat, count: nat) -> Seq<u8>
    decreases count,
{
    if count == 0 {
        Seq::empty()
    } else {
        be_bytes(number / 256, (count - 1) as nat).push((number % 256) as u8)
    }
}

/// The account that 20 bytes identify.
pub open spec fn address_of(bytes: Seq<u8>) -> Address {
    (be_number(bytes.subrange(0, 4)) as u32, be_number(bytes.subrange(4, 20)) as u128)
}

/// The 20 bytes that identify an account.
pub open spec fn bytes_of(address: Address) -> Seq<u8> {
    be_bytes(address.0 as nat, 4) + be_bytes(address.1 as nat, 16)
}

/// Four bytes spell the 32-bit numbers, and sixteen bytes the 128-bit numbers.
pub proof fn lemma_limits()
    ensures
        limit(4) == 0x1_0000_0000,
        limit(16) == 0x1_0000_0000_0000_0000_0000_0000_0000_0000,
{
    reveal_with_fuel(limit, 5);
    assert(limit(4) == 0x1_0000_0000);
    assert(limit(8) == 0x1_0000_0000 * limit(4));
    assert(limit(12) == 0x1_0000_0000 * limit(8));
    assert(limit(16) == 0x1_0000_0000 * limit(12));
}

/// More bytes spell no fewer numbers.
pub proof fn lemma_limit_grows(fewer: nat, more: nat)
    requires
        fewer <= more,
    ensures
        0 < limit(fewer) <= limit(more),
    decreases more,
{
    if more == 0 {
    } else if fewer < more {
        lemma_limit_grows(fewer, (more - 1) as nat);
    } else {
        lemma_limit_grows((fewer - 1) as nat, (more - 1) as nat);
    }
}

/// What bytes spell is less than the limit of their count.
pub proof fn lemma_be_number_bound(bytes: Seq<u8>)
    ensures
        be_number(bytes) < limit(bytes.len()),
    decreases bytes.len(),
{
    if bytes.len() > 0 {
        lemma_be_number_bound(bytes.drop_last());
    }
}

/// The bytes that spell a number are as many as were asked for, and spell it.
pub proof fn lemma_be_bytes_spell(number: nat, count: nat)
    requires
        number < limit(count),
    ensures
        be_bytes(number, count).len() == count,
        be_number(be_bytes(number, count)) == number,
    decreases count,
{
    if count > 0 {
        lemma_be_bytes_spell(number / 256, (count - 1) as nat);
        let written = be_bytes(number, count);
        assert(written.drop_last() =~= be_bytes(number / 256, (count - 1) as nat));
    }
}

/// The number that bytes spell is spelt by these bytes.
pub proof fn lemma_be_number_spelt(bytes: Seq<u8>)
    ensures
        be_bytes(be_number(bytes), bytes.len()) == bytes,
    decreases bytes.len(),
{
    if bytes.len() > 0 {
        lemma_be_number_spelt(bytes.drop_last());
        assert(be_bytes(be_number(bytes), bytes.len()) =~= bytes);
    }
}

/// An account is the one that its bytes identify.
pub proof fn lemma_address_of_its_bytes(address: Address)
    ensures
        bytes_of(address).len() == ADDRESS_LENGTH,
        address_of(bytes_of(address)) == address,
{
    lemma_limits();
    lemma_be_bytes_spell(address.0 as nat, 4);
    lemma_be_bytes_spell(address.1 as nat, 16);
    assert(bytes_of(address).subrange(0, 4) =~= be_bytes(address.0 as nat, 4));
    assert(bytes_of(address).subrange(4, 20) =~= be_bytes(address.1 as nat, 16));
}

/// Twenty bytes are those of the account that they identify.
pub proof fn lemma_bytes_of_their_address(bytes: Seq<u8>)
    requires
        bytes.len() == ADDRESS_LENGTH,
    ensures
        bytes_of(address_of(bytes)) == bytes,
{
    lemma_limits();
    lemma_be_number_bound(bytes.subrange(0, 4));
    lemma_be_number_bound(bytes.subrange(4, 20));
    lemma_be_number_spelt(bytes.subrange(0, 4));
    lemma_be_number_spelt(bytes.subrange(4, 20));
    assert(bytes_of(address_of(bytes)) =~= bytes);
}

/// The number that the `count` bytes from `start` on spell.
fn read_be(bytes: &[u8], start: usize, count: usize) -> (number: u128)
    requires
        count <= 16,
        start + count <= bytes.len(),
    ensures
        number == be_number(bytes@.subrange(start as int, start + count)),
{
    let mut number: u128 = 0;
    let mut done: usize = 0;
    while done < count
        invariant
            count <= 16,
            start + count <= bytes.len(),
            done <= count,
            number == be_number(bytes@.subrange(start as int, start + done)),
        decreases count - done,
    {
        proof {
            let read = bytes@.subrange(start as int, start + done);
            let next = bytes@.subrange(start as int, start + done + 1);
            assert(next.drop_last() =~= read);
            lemma_be_number_bound(next);
            lemma_limit_grows((done + 1) as nat, 16);
            lemma_limits();
        }
        number = number * 256 + bytes[start + done] as u128;
        done += 1;
    }
    number
}

/// Writes the `count` bytes that spell `number` to the places from `start` on.
fn write_be(bytes: &mut Vec<u8>, start: usize, count: usize, number: u128)
    requires
        start + count <= old(bytes).len(),
    ensures
        final(bytes)@.len() == old(bytes)@.len(),
        final(bytes)@.subrange(start as int, start + count) == be_bytes(
            number as nat,
            count as nat,
        ),
        forall|place: int|
            0 <= place < start || start + count <= place < old(bytes)@.len()
                ==> final(bytes)@[place] == old(bytes)@[place],
{
    let mut rest: u128 = number;
    let mut left: usize = count;
    while left > 0
        invariant
            left <= count,
            start + count <= bytes.len(),
            bytes@.len() == old(bytes)@.len(),
            be_bytes(number as nat, count as nat) == be_bytes(rest as nat, left as nat)
                + bytes@.subrange(start + left, start + count),
            forall|place: int|
                0 <= place < start || start + count <= place < old(bytes)@.len()
                    ==> bytes@[place] == old(bytes)@[place],
        decreases left,
    {
        let ghost before = bytes@;
        left -= 1;
        bytes.set(start + left, (rest % 256) as u8);
        proof {
            assert(bytes@.subrange(start + left, start + count) =~= seq![(rest % 256) as u8]
                + before.subrange(start + left + 1, start + count));
            assert(be_bytes(rest as nat, (left + 1) as nat) + before.subrange(
                start + left + 1,
                start + count,
            ) =~= be_bytes((rest / 256) as nat, left as nat) + bytes@.subrange(
                start + left,
                start + count,
            ));
        }
        rest = rest / 256;
    }
}

/// The account that `bytes` identify, if they are 20.
pub fn address_from_bytes(bytes: &[u8]) -> (address: Option<Address>)
    ensures
        address == (if bytes@.len() == ADDRESS_LENGTH {
            Some(address_of(bytes@))
        } else {
            None
        }),
{
    if bytes.len() != ADDRESS_LENGTH {
        return None;
    }
    let head = read_be(bytes, 0, 4);
    let tail = read_be(bytes, 4, 16);
    proof {
        lemma_be_number_bound(bytes@.subrange(0, 4));
        lemma_limits();
    }
    Some((head as u32, tail))
}

/// The 20 bytes that identify `address`.
pub fn address_to_bytes(address: &Address) -> (bytes: Vec<u8>)
    ensures
        bytes@ == bytes_of(*address),
{
    let mut bytes: Vec<u8> = Vec::new();
    while bytes.len() < ADDRESS_LENGTH
        invariant
            bytes@.len() <= ADDRESS_LENGTH,
        decreases ADDRESS_LENGTH - bytes@.len(),
    {
        bytes.push(0);
    }
    write_be(&mut bytes, 4, 16, address.1);
    write_be(&mut bytes, 0, 4, address.0 as u128);
    proof {
        assert(bytes@.subrange(4, 20) =~= be_bytes(address.1 as nat, 16));
        assert(bytes@ =~= bytes@.subrange(0, 4) + bytes@.subrange(4, 20));
    }
    bytes
}

} // verus!
