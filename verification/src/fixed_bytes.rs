//! Fixed-size byte strings: hashes, node ids and protocol ids.
//!
//! A byte string of `N` bytes is a plain array. Strings of one size are ordered
//! byte by byte, the first difference deciding.
use vstd::prelude::*;

verus! {

/// A 256 bit hash.
pub type H256 = [u8; 32];

/// A 512 bit hash, the public id of a node.
pub type H512 = [u8; 64];

/// `a` comes before `b`: they agree up to a place where `a` has the smaller byte.
pub open spec fn precedes(a: Seq<u8>, b: Seq<u8>) -> bool {
    exists|i: int| agree_up_to(a, b, i) && a[i] < b[i]
}

/// Place `i` lies in both strings and all places before it hold equal bytes.
pub open spec fn agree_up_to(a: Seq<u8>, b: Seq<u8>, i: int) -> bool {
    &&& 0 <= i < a.len()
    &&& i < b.len()
    &&& forall|j: int| 0 <= j < i ==> a[j] == b[j]
}

/// No byte string comes before itself.
pub proof fn precedes_irreflexive(a: Seq<u8>)
    ensures
        !precedes(a, a),
{
}

/// Of two byte strings at most one comes before the other.
pub proof fn precedes_asymmetric(a: Seq<u8>, b: Seq<u8>)
    requires
        precedes(a, b),
    ensures
        !precedes(b, a),
{
    let i = choose|i: int| agree_up_to(a, b, i) && a[i] < b[i];
    assert forall|j: int| agree_up_to(b, a, j) implies !(b[j] < a[j]) by {
        if j < i {
            assert(a[j] == b[j]);
        } else if i < j {
            assert(b[i] == a[i]);
        }
    }
}

/// The order is transitive.
pub proof fn precedes_transitive(a: Seq<u8>, b: Seq<u8>, c: Seq<u8>)
    requires
        precedes(a, b),
        precedes(b, c),
    ensures
        precedes(a, c),
{
    let i = choose|i: int| agree_up_to(a, b, i) && a[i] < b[i];
    let j = choose|j: int| agree_up_to(b, c, j) && b[j] < c[j];
    let k = if i < j {
        i
    } else {
        j
    };
    assert(agree_up_to(a, c, k) && a[k] < c[k]);
}

/// Outcome of a comparison of two byte strings of one size.
#[derive(Debug, Clone, Copy, PartialEq, Eq, Structural)]
pub enum Position {
    /// The first string comes before the second.
    Before,
    /// The strings are equal.
    Same,
    /// The first string comes after the second.
    After,
}

/// Tells where `a` stands in relation to `b`.
pub fn position<const N: usize>(a: &[u8; N], b: &[u8; N]) -> (res: Position)
    ensures
        match res {
            Position::Before => precedes(a@, b@),
            Position::Same => *a == *b,
            Position::After => precedes(b@, a@),
        },
{
    let mut i: usize = 0;
    while i < N
        invariant
            i <= N,
            forall|j: int| 0 <= j < i ==> a@[j] == b@[j],
        decreases N - i,
    {
        if a[i] < b[i] {
            assert(agree_up_to(a@, b@, i as int));
            return Position::Before;
        }
        if b[i] < a[i] {
            assert(agree_up_to(b@, a@, i as int));
            return Position::After;
        }
        i += 1;
    }
    assert(*a =~= *b);
    Position::Same
}

/// The first byte in which two strings differ decides which comes first, however
/// the bytes behind it compare.
pub proof fn first_difference_decides(a: Seq<u8>, b: Seq<u8>, i: int)
    requires
        0 <= i < a.len(),
        i < b.len(),
        forall|j: int| 0 <= j < i ==> a[j] == b[j],
        a[i] < b[i],
    ensures
        precedes(a, b),
        !precedes(b, a),
{
    assert(agree_up_to(a, b, i));
    precedes_asymmetric(a, b);
}

/// A comparison goes by the first byte in which two strings differ; strings that
/// differ in no byte are the same.
pub proof fn comparison_goes_by_the_first_difference<const N: usize>(
    a: [u8; N],
    b: [u8; N],
    res: Position,
    i: int,
)
    requires
        call_ensures(position::<N>, (&a, &b), res),
        0 <= i <= N,
        forall|j: int| 0 <= j < i ==> a@[j] == b@[j],
    ensures
        i == N ==> res == Position::Same,
        i < N && a@[i] < b@[i] ==> res == Position::Before,
        i < N && a@[i] > b@[i] ==> res == Position::After,
{
    if i == N {
        assert(a@ =~= b@);
        precedes_irreflexive(a@);
    } else if a@[i] < b@[i] {
        first_difference_decides(a@, b@, i);
    } else if a@[i] > b@[i] {
        first_difference_decides(b@, a@, i);
    }
}

/// Two strings are found equal if and only if they agree in every byte.
pub proof fn equality_goes_by_every_byte<const N: usize>(a: [u8; N], b: [u8; N], res: bool)
    requires
        call_ensures(same_bytes::<N>, (&a, &b), res),
    ensures
        res <==> forall|i: int| 0 <= i < N ==> a@[i] == b@[i],
{
    if forall|i: int| 0 <= i < N ==> a@[i] == b@[i] {
        assert(a@ =~= b@);
        assert(a =~= b);
    }
}

/// Tells whether two byte strings of one size are equal.
pub fn same_bytes<const N: usize>(a: &[u8; N], b: &[u8; N]) -> (res: bool)
    ensures
        res == (*a == *b),
{
    match position(a, b) {
        Position::Before => {
            proof {
                precedes_irreflexive(a@);
            }
            false
        },
        Position::Same => true,
        Position::After => {
            proof {
                precedes_irreflexive(a@);
            }
            false
        },
    }
}

/// The lower case hexadecimal digit of a value below sixteen.
pub open spec fn hex_digit(value: int) -> char {
    if value < 10 {
        (value + '0' as int) as char
    } else {
        (value - 10 + 'a' as int) as char
    }
}

/// Two lower case hexadecimal digits for each byte, high digit first.
pub open spec fn hex(bytes: Seq<u8>) -> Seq<char> {
    Seq::new(
        2 * bytes.len(),
        |i: int|
            if i % 2 == 0 {
                hex_digit(bytes[i / 2] as int / 16)
            } else {
                hex_digit(bytes[i / 2] as int % 16)
            },
    )
}

/// The hexadecimal form has two characters for each byte, digits and the letters
/// from `a` to `f`, and the byte can be read from them: sixteen times the value of
/// the first and the value of the second.
pub proof fn hex_can_be_read(bytes: Seq<u8>, i: int)
    requires
        0 <= i < bytes.len(),
    ensures
        hex(bytes).len() == 2 * bytes.len(),
        ({
            let high = hex(bytes)[2 * i] as int;
            let low = hex(bytes)[2 * i + 1] as int;
            &&& '0' as int <= high <= '9' as int || 'a' as int <= high <= 'f' as int
            &&& '0' as int <= low <= '9' as int || 'a' as int <= low <= 'f' as int
            &&& bytes[i] == 16 * (if high <= '9' as int {
                high - '0' as int
            } else {
                high - 'a' as int + 10
            }) + (if low <= '9' as int {
                low - '0' as int
            } else {
                low - 'a' as int + 10
            })
        }),
{
    assert(hex(bytes)[2 * i] == hex_digit(bytes[i] as int / 16));
    assert(hex(bytes)[2 * i + 1] == hex_digit(bytes[i] as int % 16));
}

/// Byte strings of one size with the same hexadecimal form are the same.
pub proof fn hex_tells_apart(a: Seq<u8>, b: Seq<u8>)
    requires
        a.len() == b.len(),
        hex(a) == hex(b),
    ensures
        a == b,
{
    assert forall|i: int| 0 <= i < a.len() implies a[i] == b[i] by {
        assert(hex(a)[2 * i] == hex_digit(a[i] as int / 16));
        assert(hex(b)[2 * i] == hex_digit(b[i] as int / 16));
        assert(hex(a)[2 * i + 1] == hex_digit(a[i] as int % 16));
        assert(hex(b)[2 * i + 1] == hex_digit(b[i] as int % 16));
    }
    assert(a =~= b);
}

/// Calls the `LowerHex` formatting of `ethereum_types::H512` without the
/// alternate flag: every byte is written as two lower case hexadecimal digits,
/// leading zeros included, and no prefix is written.
#[verifier::external_body]
pub(crate) fn node_id_hex(id: &H512) -> (res: String)
    ensures
        res@ == hex(id@),
{
    format!("{:x}", ethereum_types::H512::from(*id))
}

} // verus!
