//! Object ids as keys of in-memory tables.
use vstd::prelude::*;

verus! {

/// The bytes read as one big-endian number.
pub open spec fn object_number(bytes: Seq<u8>) -> nat
    decreases bytes.len(),
{
    if bytes.len() == 0 {
        0
    } else {
        object_number(bytes.drop_last()) * 256 + bytes.last() as nat
    }
}

/// An upper bound of the numbers that so many bytes can stand for.
pub open spec fn object_number_bound(len: nat) -> nat
    decreases len,
{
    if len == 0 {
        1
    } else {
        object_number_bound((len - 1) as nat) * 256
    }
}

proof fn object_number_is_bounded(bytes: Seq<u8>)
    ensures
        object_number(bytes) < object_number_bound(bytes.len()),
    decreases bytes.len(),
{
    if bytes.len() > 0 {
        object_number_is_bounded(bytes.drop_last());
    }
}

proof fn twelve_bytes_fit()
    ensures
        object_number_bound(12) == 79_228_162_514_264_337_593_543_950_336,
{
    reveal_with_fuel(object_number_bound, 13);
}

/// Byte sequences of the same length stand for different numbers unless they are the same.
pub proof fn object_number_is_injective(left: Seq<u8>, right: Seq<u8>)
    requires
        left.len() == right.len(),
        object_number(left) == object_number(right),
    ensures
        left == right,
    decreases left.len(),
{
    if left.len() == 0 {
        assert(left =~= right);
    } else {
        object_number_is_injective(left.drop_last(), right.drop_last());
        assert(left =~= left.drop_last().push(left.last()));
        assert(right =~= right.drop_last().push(right.last()));
    }
}

/// The twelve bytes that stand for a number.
pub open spec fn object_bytes(number: u128) -> Seq<u8> {
    choose|bytes: Seq<u8>| bytes.len() == 12 && #[trigger] object_number(bytes) == number
}

/// Turning the bytes of an object id into a number and back gives the bytes again.
pub proof fn object_bytes_read_back(bytes: Seq<u8>)
    requires
        bytes.len() == 12,
    ensures
        object_bytes(object_number(bytes) as u128) == bytes,
{
    object_number_is_bounded(bytes);
    twelve_bytes_fit();
    object_number_is_injective(object_bytes(object_number(bytes) as u128), bytes);
}

/// An object id in the form in which tables hold it: its twelve bytes as one number.
#[derive(Clone, Copy, Debug, PartialEq, Eq, Structural)]
pub struct ObjectKey {
    number: u128,
}

impl View for ObjectKey {
    type V = u128;

    closed spec fn view(&self) -> u128 {
        self.number
    }
}

impl ObjectKey {
    #[verifier::type_invariant]
    spec fn fits(self) -> bool {
        self.number < object_number_bound(12)
    }

    /// The key of the object id with these bytes.
    pub fn from_bytes(bytes: [u8; 12]) -> (key: ObjectKey)
        ensures
            key@ == object_number(bytes@),
    {
        let mut number: u128 = 0;
        let mut i: usize = 0;
        proof {
            twelve_bytes_fit();
            assert(bytes@.take(0) =~= Seq::<u8>::empty());
        }
        while i < 12
            invariant
                i <= 12,
                bytes@.len() == 12,
                number == object_number(bytes@.take(i as int)),
                object_number_bound(12) == 79_228_162_514_264_337_593_543_950_336,
            decreases 12 - i,
        {
            proof {
                assert(bytes@.take(i + 1).drop_last() =~= bytes@.take(i as int));
                object_number_is_bounded(bytes@.take(i as int));
                bound_grows(i as nat, 11);
                reveal_with_fuel(object_number_bound, 13);
            }
            number = number * 256 + bytes[i] as u128;
            i = i + 1;
        }
        proof {
            assert(bytes@.take(12) =~= bytes@);
            object_number_is_bounded(bytes@);
        }
        ObjectKey { number }
    }

    /// The key with this number.
    pub(crate) fn from_number(number: u128) -> (key: ObjectKey)
        requires
            number < object_number_bound(12),
        ensures
            key@ == number,
    {
        ObjectKey { number }
    }

    /// The bytes of the object id as one number.
    pub(crate) fn number(&self) -> (number: u128)
        ensures
            number == self@,
            number < object_number_bound(12),
    {
        proof {
            use_type_invariant(self);
        }
        self.number
    }

    /// The bytes of the object id.
    pub fn bytes(&self) -> (bytes: [u8; 12])
        ensures
            object_number(bytes@) == self@,
            bytes@ == object_bytes(self@),
    {
        proof {
            use_type_invariant(self);
            twelve_bytes_fit();
        }
        let mut bytes: [u8; 12] = [0;12];
        let mut rest: u128 = self.number;
        let mut i: usize = 12;
        proof {
            assert(bytes@.skip(12) =~= Seq::<u8>::empty());
        }
        while i > 0
            invariant
                i <= 12,
                bytes@.len() == 12,
                rest < object_number_bound(i as nat),
                self.number == digits_after(rest as nat, bytes@.skip(i as int)),
            decreases i,
        {
            let ghost before = bytes@;
            let ghost number = rest as nat;
            i = i - 1;
            let digit: u8 = (rest % 256) as u8;
            bytes[i] = digit;
            rest = rest / 256;
            proof {
                assert(bytes@.skip(i as int) =~= seq![digit] + before.skip(i + 1));
                digits_step(rest as nat, digit, before.skip(i + 1));
            }
        }
        proof {
            assert(bytes@.skip(0) =~= bytes@);
            digits_from_zero(bytes@);
            object_bytes_read_back(bytes@);
        }
        bytes
    }
}

/// The number that one gets by writing `digits` behind the number `front`.
spec fn digits_after(front: nat, digits: Seq<u8>) -> nat
    decreases digits.len(),
{
    if digits.len() == 0 {
        front
    } else {
        digits_after(front, digits.drop_last()) * 256 + digits.last() as nat
    }
}

proof fn digits_step(front: nat, digit: u8, digits: Seq<u8>)
    ensures
        digits_after(front, seq![digit] + digits) == digits_after(front * 256 + digit as nat, digits),
    decreases digits.len(),
{
    let all = seq![digit] + digits;
    if digits.len() == 0 {
        assert(all.drop_last() =~= Seq::<u8>::empty());
        assert(digits_after(front, Seq::<u8>::empty()) == front);
        assert(digits_after(front, all) == front * 256 + digit as nat);
    } else {
        assert(all.drop_last() =~= seq![digit] + digits.drop_last());
        digits_step(front, digit, digits.drop_last());
    }
}

proof fn digits_from_zero(digits: Seq<u8>)
    ensures
        digits_after(0, digits) == object_number(digits),
    decreases digits.len(),
{
    if digits.len() > 0 {
        digits_from_zero(digits.drop_last());
    }
}

proof fn bound_grows(small: nat, large: nat)
    requires
        small <= large,
    ensures
        object_number_bound(small) <= object_number_bound(large),
    decreases large - small,
{
    if small < large {
        bound_grows(small, (large - 1) as nat);
    }
}

} // verus!
